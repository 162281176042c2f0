use hello_triangle::frame::{
    command_pool_config, ClearColor, FrameDriver, FramePhase, PresentPlan, RenderCommand,
    SubmitPlan,
};
use hello_triangle::model::Extent2D;
use hello_triangle::pipeline::STAGE_COLOR_ATTACHMENT_OUTPUT_BIT;

const EXTENT: Extent2D = Extent2D { width: 800, height: 600 };

fn run_one_iteration(driver: &mut FrameDriver, image_index: u32) -> (Vec<RenderCommand>, SubmitPlan, PresentPlan) {
    driver.begin_frame();
    driver.acquire_image(image_index);
    let commands = driver.record_commands(EXTENT);
    let submit = driver.submit();
    let present = driver.present();
    (commands, submit, present)
}

#[test]
fn in_flight_marker_starts_signaled() {
    let driver = FrameDriver::new(3);
    assert!(driver.in_flight_signaled);
    assert!(!driver.gpu_busy);
    assert_eq!(driver.phase, FramePhase::Idle);
    assert_eq!(driver.acquires, 0);
    assert_eq!(driver.submits, 0);
    assert_eq!(driver.presents, 0);
}

#[test]
fn each_iteration_is_one_balanced_triple() {
    let mut driver = FrameDriver::new(3);
    for n in 1..=5u64 {
        run_one_iteration(&mut driver, (n % 3) as u32);
        assert_eq!(driver.phase, FramePhase::Idle);
        assert_eq!(driver.acquires, n);
        assert_eq!(driver.submits, n);
        assert_eq!(driver.presents, n);
    }
}

#[test]
fn wait_returns_only_after_gpu_completion() {
    let mut driver = FrameDriver::new(2);
    run_one_iteration(&mut driver, 0);
    assert!(driver.gpu_busy);
    driver.begin_frame();
    assert!(!driver.gpu_busy);
    assert!(!driver.in_flight_signaled);
}

#[test]
fn recorded_commands_follow_the_fixed_sequence() {
    let mut driver = FrameDriver::new(3);
    driver.begin_frame();
    driver.acquire_image(2);
    let commands = driver.record_commands(EXTENT);
    assert_eq!(
        commands,
        vec![
            RenderCommand::BeginRenderPass {
                framebuffer_index: 2,
                render_area: EXTENT,
                clear: ClearColor::OpaqueBlack,
            },
            RenderCommand::BindPipeline,
            RenderCommand::SetViewport { extent: EXTENT },
            RenderCommand::SetScissor { extent: EXTENT },
            RenderCommand::Draw {
                vertex_count: 3,
                instance_count: 1,
                first_vertex: 0,
                first_instance: 0,
            },
            RenderCommand::EndRenderPass,
        ]
    );
}

#[test]
fn submission_wires_both_signals_and_the_marker() {
    let mut driver = FrameDriver::new(2);
    driver.begin_frame();
    driver.acquire_image(1);
    driver.record_commands(EXTENT);
    let plan = driver.submit();
    assert_eq!(
        plan,
        SubmitPlan {
            wait_image_available: true,
            wait_stage_mask: STAGE_COLOR_ATTACHMENT_OUTPUT_BIT,
            signal_render_finished: true,
            signal_in_flight: true,
            command_buffer_count: 1,
        }
    );
    assert!(driver.gpu_busy);
    assert!(!driver.in_flight_signaled);
}

#[test]
fn presentation_waits_for_render_and_names_the_image() {
    let mut driver = FrameDriver::new(4);
    driver.begin_frame();
    driver.acquire_image(3);
    driver.record_commands(EXTENT);
    driver.submit();
    let plan = driver.present();
    assert_eq!(
        plan,
        PresentPlan { wait_render_finished: true, image_index: 3, swapchain_count: 1 }
    );
}

#[test]
fn command_pool_lives_on_the_graphics_family_with_reset() {
    let config = command_pool_config(7);
    assert_eq!(config.queue_family_index, 7);
    assert!(config.allow_buffer_reset);
}

#[test]
fn finish_models_the_device_idle_wait() {
    let mut driver = FrameDriver::new(2);
    run_one_iteration(&mut driver, 0);
    assert!(driver.gpu_busy);
    driver.finish();
    assert!(!driver.gpu_busy);
    assert_eq!(driver.phase, FramePhase::Idle);
}
