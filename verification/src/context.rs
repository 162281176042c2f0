//! Context bootstrap decisions: layer validation, instance and logical
//! device configuration, and classification of diagnostics messages.

use vstd::prelude::*;

verus! {

/// Severity bit of verbose diagnostics messages.
pub const SEVERITY_VERBOSE_BIT: u32 = 0x1;

/// Severity bit of warning diagnostics messages.
pub const SEVERITY_WARNING_BIT: u32 = 0x100;

/// Severity bit of error diagnostics messages.
pub const SEVERITY_ERROR_BIT: u32 = 0x1000;

/// Type bit of general diagnostics messages.
pub const TYPE_GENERAL_BIT: u32 = 0x1;

/// Type bit of validation diagnostics messages.
pub const TYPE_VALIDATION_BIT: u32 = 0x2;

/// Type bit of performance diagnostics messages.
pub const TYPE_PERFORMANCE_BIT: u32 = 0x4;

/// A sequence of names holds `name`.
pub open spec fn contains_name(names: Seq<String>, name: Seq<char>) -> bool {
    exists|i: int| 0 <= i < names.len() && names[i]@ == name
}

/// Every name in `requested` occurs in the `available` enumeration.
fn all_names_present(available: &Vec<String>, requested: &Vec<String>) -> (r: bool)
    ensures
        r <==> forall|i: int|
            0 <= i < requested.len() ==> contains_name(available@, requested@[i]@),
{
    let mut i: usize = 0;
    while i < requested.len()
        invariant
            i <= requested.len(),
            forall|k: int| 0 <= k < i ==> contains_name(available@, requested@[k]@),
        decreases requested.len() - i,
    {
        let mut found = false;
        let mut j: usize = 0;
        while j < available.len()
            invariant
                j <= available.len(),
                i < requested.len(),
                found ==> contains_name(available@, requested@[i as int]@),
                !found ==> forall|k: int| 0 <= k < j ==> available@[k]@ != requested@[i as int]@,
            decreases available.len() - j,
        {
            if available[j] == requested[i] {
                found = true;
            }
            j = j + 1;
        }
        if !found {
            proof {
                assert(!contains_name(available@, requested@[i as int]@));
            }
            return false;
        }
        i = i + 1;
    }
    true
}

/// The validation layer list requested when diagnostics are enabled.
pub fn validation_layer_names() -> (r: Vec<String>)
    ensures
        r@.len() == 1,
        r@[0]@ == "VK_LAYER_KHRONOS_validation"@,
{
    let mut names: Vec<String> = Vec::new();
    names.push("VK_LAYER_KHRONOS_validation".to_owned());
    names
}

/// Every requested layer name occurs in the available-layer
/// enumeration.
pub fn check_validation_layer_support(available: &Vec<String>, requested: &Vec<String>) -> (r:
    bool)
    ensures
        r <==> forall|i: int|
            0 <= i < requested.len() ==> contains_name(available@, requested@[i]@),
{
    all_names_present(available, requested)
}

/// The required device extension set: the single swapchain extension.
pub fn device_extension_names() -> (r: Vec<String>)
    ensures
        r@.len() == 1,
        r@[0]@ == "VK_KHR_swapchain"@,
{
    let mut names: Vec<String> = Vec::new();
    names.push("VK_KHR_swapchain".to_owned());
    names
}

/// Every required device extension occurs in the device's
/// available-extension enumeration.
pub fn check_device_extension_support(available: &Vec<String>, required: &Vec<String>) -> (r: bool)
    ensures
        r <==> forall|i: int| 0 <= i < required.len() ==> contains_name(available@, required@[i]@),
{
    all_names_present(available, required)
}

/// The instance extension list: the platform-required names from the
/// windowing collaborator, plus the debug-messenger extension when
/// diagnostics are enabled.
pub fn get_required_extensions(platform_extensions: Vec<String>, diagnostics_enabled: bool) -> (r:
    Vec<String>)
    ensures
        !diagnostics_enabled ==> r@ == platform_extensions@,
        diagnostics_enabled ==> r@.len() == platform_extensions@.len() + 1 && (forall|i: int|
            0 <= i < platform_extensions@.len() ==> r@[i] == platform_extensions@[i])
            && r@[platform_extensions@.len() as int]@ == "VK_EXT_debug_utils"@,
{
    let mut extensions = platform_extensions;
    if diagnostics_enabled {
        extensions.push("VK_EXT_debug_utils".to_owned());
    }
    extensions
}

/// Packs an API version number: the major part in bits 22 and up, the
/// minor part in bits 12 to 21.
pub fn get_api_version(major: u32, minor: u32) -> (r: u32)
    requires
        major < 1024,
        minor < 1024,
    ensures
        r == major * 0x400000 + minor * 0x1000,
{
    let r = (major << 22u32) | (minor << 12u32);
    proof {
        assert((major << 22u32) | (minor << 12u32) == major * 0x400000 + minor * 0x1000)
            by (bit_vector)
            requires
                major < 1024,
                minor < 1024,
        ;
    }
    r
}

/// The bootstrap failed in a way tied to the environment; the process
/// fails fast with a descriptive message.
#[derive(Clone, Copy, Debug, PartialEq, Eq, Structural)]
pub enum StartupError {
    /// A requested validation layer is absent from the enumeration.
    ValidationLayersUnavailable,
}

impl StartupError {
    /// A diagnostic line naming the failure.
    pub fn message(&self) -> (r: String)
        ensures
            r@ == "validation layers requested, but not available"@,
    {
        match self {
            StartupError::ValidationLayersUnavailable => "validation layers requested, but not available".to_owned(),
        }
    }
}

/// Everything instance creation needs: metadata, layer and extension
/// lists, and whether a debug messenger is chained into the creation
/// call itself.
#[derive(Clone, Debug)]
pub struct InstanceConfig {
    pub application_name: String,
    pub engine_name: String,
    pub application_version: u32,
    pub engine_version: u32,
    pub api_version: u32,
    pub enabled_layers: Vec<String>,
    pub enabled_extensions: Vec<String>,
    /// Chain a messenger into instance creation, and create a second,
    /// standalone one right after, so that messages emitted during
    /// creation itself are still captured.
    pub chain_debug_messenger: bool,
}

/// Assembles the instance configuration. When diagnostics are enabled
/// the validation layers are requested, after confirming each is
/// available; a missing layer fails fatally.
pub fn instance_config(
    available_layers: &Vec<String>,
    platform_extensions: Vec<String>,
    diagnostics_enabled: bool,
) -> (r: Result<InstanceConfig, StartupError>)
    ensures
        r matches Err(e) ==> e == StartupError::ValidationLayersUnavailable && diagnostics_enabled
            && !contains_name(available_layers@, "VK_LAYER_KHRONOS_validation"@),
        diagnostics_enabled && !contains_name(available_layers@, "VK_LAYER_KHRONOS_validation"@)
            ==> r is Err,
        r matches Ok(c) ==> {
            &&& c.application_name@ == "Hello Triangle"@
            &&& c.engine_name@ == "No Engine"@
            &&& c.application_version == 0
            &&& c.engine_version == 0x400000
            &&& c.api_version == 0x400000
            &&& (!diagnostics_enabled ==> c.enabled_layers@.len() == 0)
            &&& (diagnostics_enabled ==> c.enabled_layers@.len() == 1 && c.enabled_layers@[0]@
                == "VK_LAYER_KHRONOS_validation"@)
            &&& (!diagnostics_enabled ==> c.enabled_extensions@ == platform_extensions@)
            &&& (diagnostics_enabled ==> c.enabled_extensions@.len() == platform_extensions@.len()
                + 1 && (forall|i: int|
                0 <= i < platform_extensions@.len() ==> c.enabled_extensions@[i]
                    == platform_extensions@[i])
                && c.enabled_extensions@[platform_extensions@.len() as int]@
                == "VK_EXT_debug_utils"@)
            &&& c.chain_debug_messenger == diagnostics_enabled
        },
{
    let requested_layers = validation_layer_names();
    if diagnostics_enabled && !check_validation_layer_support(available_layers, &requested_layers) {
        proof {
            assert(requested_layers@[0]@ == "VK_LAYER_KHRONOS_validation"@);
        }
        return Err(StartupError::ValidationLayersUnavailable);
    }
    let enabled_layers = if diagnostics_enabled {
        requested_layers
    } else {
        Vec::new()
    };
    let enabled_extensions = get_required_extensions(platform_extensions, diagnostics_enabled);
    let api_version = get_api_version(1, 0);
    Ok(
        InstanceConfig {
            application_name: "Hello Triangle".to_owned(),
            engine_name: "No Engine".to_owned(),
            application_version: 0,
            engine_version: api_version,
            api_version,
            enabled_layers,
            enabled_extensions,
            chain_debug_messenger: diagnostics_enabled,
        },
    )
}

/// Everything logical device creation needs: one queue-create entry per
/// unique queue family, the device extension set, and the device-level
/// layer names mirroring the instance layers when diagnostics are
/// enabled.
#[derive(Clone, Debug)]
pub struct DeviceConfig {
    /// The unique queue family indices, one queue-create entry each.
    pub queue_families: Vec<u32>,
    /// Queues requested per listed family.
    pub queues_per_family: u32,
    pub enabled_extensions: Vec<String>,
    pub enabled_layers: Vec<String>,
}

/// The deduplicated queue family list: one entry when graphics and
/// presentation share a family, two otherwise.
pub fn unique_queue_families(graphics_family: u32, present_family: u32) -> (r: Vec<u32>)
    ensures
        graphics_family == present_family ==> r@ =~= seq![graphics_family],
        graphics_family != present_family ==> r@ =~= seq![graphics_family, present_family],
{
    let mut families: Vec<u32> = Vec::new();
    families.push(graphics_family);
    if present_family != graphics_family {
        families.push(present_family);
    }
    families
}

/// Assembles the logical device configuration from the chosen queue
/// families.
pub fn device_config(graphics_family: u32, present_family: u32, diagnostics_enabled: bool) -> (r:
    DeviceConfig)
    ensures
        graphics_family == present_family ==> r.queue_families@ =~= seq![graphics_family],
        graphics_family != present_family ==> r.queue_families@ =~= seq![
            graphics_family,
            present_family,
        ],
        r.queues_per_family == 1,
        r.enabled_extensions@.len() == 1 && r.enabled_extensions@[0]@ == "VK_KHR_swapchain"@,
        !diagnostics_enabled ==> r.enabled_layers@.len() == 0,
        diagnostics_enabled ==> r.enabled_layers@.len() == 1 && r.enabled_layers@[0]@
            == "VK_LAYER_KHRONOS_validation"@,
{
    let enabled_layers = if diagnostics_enabled {
        validation_layer_names()
    } else {
        Vec::new()
    };
    DeviceConfig {
        queue_families: unique_queue_families(graphics_family, present_family),
        queues_per_family: 1,
        enabled_extensions: device_extension_names(),
        enabled_layers,
    }
}

/// Severity class of a diagnostics message.
#[derive(Clone, Copy, Debug, PartialEq, Eq, Structural)]
pub enum Severity {
    Verbose,
    Warning,
    Error,
    Other,
}

/// Type class of a diagnostics message.
#[derive(Clone, Copy, Debug, PartialEq, Eq, Structural)]
pub enum MessageKind {
    General,
    Validation,
    Performance,
    Other,
}

/// The severity class a severity bit maps to.
pub open spec fn spec_classify_severity(bits: u32) -> Severity {
    if bits == SEVERITY_VERBOSE_BIT {
        Severity::Verbose
    } else if bits == SEVERITY_WARNING_BIT {
        Severity::Warning
    } else if bits == SEVERITY_ERROR_BIT {
        Severity::Error
    } else {
        Severity::Other
    }
}

/// The type class a type bit maps to.
pub open spec fn spec_classify_kind(bits: u32) -> MessageKind {
    if bits == TYPE_GENERAL_BIT {
        MessageKind::General
    } else if bits == TYPE_VALIDATION_BIT {
        MessageKind::Validation
    } else if bits == TYPE_PERFORMANCE_BIT {
        MessageKind::Performance
    } else {
        MessageKind::Other
    }
}

/// A classified diagnostics message, ready for an external sink.
#[derive(Clone, Copy, Debug, PartialEq, Eq, Structural)]
pub struct DiagnosticRecord {
    pub severity: Severity,
    pub kind: MessageKind,
    /// Whether the triggering driver call should abort. Always false:
    /// the callback is an observability sink, never a control mechanism.
    pub abort_call: bool,
}

/// Classifies one diagnostics message by its severity and type bits.
/// The record never asks the triggering call to abort.
pub fn classify_message(severity_bits: u32, type_bits: u32) -> (r: DiagnosticRecord)
    ensures
        r.severity == spec_classify_severity(severity_bits),
        r.kind == spec_classify_kind(type_bits),
        !r.abort_call,
{
    let severity = if severity_bits == SEVERITY_VERBOSE_BIT {
        Severity::Verbose
    } else if severity_bits == SEVERITY_WARNING_BIT {
        Severity::Warning
    } else if severity_bits == SEVERITY_ERROR_BIT {
        Severity::Error
    } else {
        Severity::Other
    };
    let kind = if type_bits == TYPE_GENERAL_BIT {
        MessageKind::General
    } else if type_bits == TYPE_VALIDATION_BIT {
        MessageKind::Validation
    } else if type_bits == TYPE_PERFORMANCE_BIT {
        MessageKind::Performance
    } else {
        MessageKind::Other
    };
    DiagnosticRecord { severity, kind, abort_call: false }
}

/// The messenger registration masks: verbose, warning and error
/// severities, and all three message types.
#[derive(Clone, Copy, Debug, PartialEq, Eq, Structural)]
pub struct DebugMessengerConfig {
    pub severity_mask: u32,
    pub type_mask: u32,
}

/// The fixed messenger configuration used both for the messenger
/// chained into instance creation and for the standalone one.
pub fn debug_messenger_config() -> (r: DebugMessengerConfig)
    ensures
        r.severity_mask == (SEVERITY_VERBOSE_BIT | SEVERITY_WARNING_BIT | SEVERITY_ERROR_BIT),
        r.type_mask == (TYPE_GENERAL_BIT | TYPE_VALIDATION_BIT | TYPE_PERFORMANCE_BIT),
{
    DebugMessengerConfig {
        severity_mask: SEVERITY_VERBOSE_BIT | SEVERITY_WARNING_BIT | SEVERITY_ERROR_BIT,
        type_mask: TYPE_GENERAL_BIT | TYPE_VALIDATION_BIT | TYPE_PERFORMANCE_BIT,
    }
}

} // verus!
