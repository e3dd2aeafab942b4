use desktop_services::capture::{
    bgrx_to_rgba, capture_size_from, destination_size, dib_buffer_len, dib_stride,
    gdi_config_from, gdi_frame_layout, CaptureCommand, CaptureService, Frame, GdiCaptureError,
    GdiFrameLayout,
};
use desktop_services::core_types::{CaptureConfig, CaptureSize};

fn is_solid(data: &[u8], r: u8, g: u8, b: u8) -> bool {
    data.len() % 4 == 0 && data.chunks(4).all(|px| px[0] == r && px[1] == g && px[2] == b && px[3] == 255)
}

#[test]
fn test_dummy_frame_generation() {
    let config = CaptureConfig {
        size: CaptureSize::Custom {
            width: 640,
            height: 480,
        },
        fps: 30,
    };

    let frame = Frame::generate_dummy_frame(&config, 0, 0);

    assert_eq!(frame.width, 640);
    assert_eq!(frame.height, 480);
    assert_eq!(frame.data.len(), 640 * 480 * 4);
}

#[test]
fn dummy_frame_colours_follow_the_palette() {
    let config = CaptureConfig {
        size: CaptureSize::Custom { width: 4, height: 2 },
        fps: 30,
    };
    let red = Frame::generate_dummy_frame(&config, 0, 7);
    assert!(is_solid(&red.data, 255, 0, 0));
    assert_eq!(red.timestamp, 7);
    let orange = Frame::generate_dummy_frame(&config, 7, 7);
    assert!(is_solid(&orange.data, 255, 128, 0));
    let black = Frame::generate_dummy_frame(&config, 9, 7);
    assert!(is_solid(&black.data, 0, 0, 0));
    // The palette wraps after ten colours.
    let green = Frame::generate_dummy_frame(&config, 11, 7);
    assert!(is_solid(&green.data, 0, 255, 0));
}

#[test]
fn dummy_frame_of_source_size_is_720p() {
    let config = CaptureConfig {
        size: CaptureSize::UseSourceSize,
        fps: 45,
    };
    let frame = Frame::generate_dummy_frame(&config, 2, 1);
    assert_eq!((frame.width, frame.height), (1280, 720));
    assert_eq!(frame.data.len(), 1280 * 720 * 4);
    assert!(is_solid(&frame.data, 0, 0, 255));
}

#[test]
fn frame_set_holds_one_frame_per_colour() {
    let config = CaptureConfig {
        size: CaptureSize::Custom { width: 2, height: 2 },
        fps: 30,
    };
    let frames = Frame::generate_frame_set(&config, 10, 5);
    assert_eq!(frames.len(), 10);
    assert!(is_solid(&frames[3].data, 255, 255, 255));
    assert!(is_solid(&frames[8].data, 128, 0, 255));
    assert!(frames.iter().all(|f| f.timestamp == 5 && f.width == 2 && f.height == 2));
}

#[test]
fn test_capture_service_start_stop() {
    let mut service = CaptureService::new(0);
    assert_eq!(service.tick_interval_ms(), 1000 / 45);
    assert!(service.tick(1).is_none());

    service.handle_command(CaptureCommand::Start { hwnd: 12345 }, 2);
    let frame = service.tick(3).expect("Frame should be generated after start");
    assert_eq!((frame.width, frame.height), (1280, 720));
    assert_eq!(frame.timestamp, 3);
    assert!(is_solid(&frame.data, 255, 0, 0));

    service.handle_command(CaptureCommand::Stop, 4);
    assert!(service.tick(5).is_none());
}

#[test]
fn capture_service_shows_each_colour_for_sixty_frames() {
    let mut service = CaptureService::new(0);
    service.handle_command(
        CaptureCommand::UpdateConfig {
            size: CaptureSize::Custom { width: 2, height: 1 },
            fps: 0,
        },
        0,
    );
    // fps 0 is treated as one frame per second.
    assert_eq!(service.tick_interval_ms(), 1000);
    service.handle_command(CaptureCommand::Start { hwnd: 1 }, 0);
    for i in 0..60u64 {
        let f = service.tick(i).unwrap();
        assert!(is_solid(&f.data, 255, 0, 0));
        assert_eq!((f.width, f.height), (2, 1));
    }
    let f = service.tick(60).unwrap();
    assert!(is_solid(&f.data, 0, 255, 0));
}

#[test]
fn update_config_restarts_the_counter() {
    let mut service = CaptureService::new(0);
    service.handle_command(CaptureCommand::Start { hwnd: 1 }, 0);
    for i in 0..61u64 {
        service.tick(i);
    }
    service.handle_command(
        CaptureCommand::UpdateConfig {
            size: CaptureSize::Custom { width: 2, height: 2 },
            fps: 30,
        },
        0,
    );
    assert_eq!(service.tick_interval_ms(), 33);
    let f = service.tick(100).unwrap();
    assert!(is_solid(&f.data, 255, 0, 0));
}

#[test]
fn gdi_update_config_normalises_size_and_fps() {
    assert_eq!(capture_size_from(0, 480), CaptureSize::UseSourceSize);
    assert_eq!(capture_size_from(640, 0), CaptureSize::UseSourceSize);
    assert_eq!(
        capture_size_from(640, 480),
        CaptureSize::Custom { width: 640, height: 480 }
    );
    let c = gdi_config_from(800, 600, 0);
    assert_eq!(c.size, CaptureSize::Custom { width: 800, height: 600 });
    assert_eq!(c.fps, 1);
    let c = gdi_config_from(0, 0, 60);
    assert_eq!(c.size, CaptureSize::UseSourceSize);
    assert_eq!(c.fps, 60);
}

#[test]
fn destination_size_follows_the_configuration() {
    let source = CaptureConfig { size: CaptureSize::UseSourceSize, fps: 30 };
    assert_eq!(destination_size(&source, 1919, 1079), (1919, 1079));
    let custom = CaptureConfig {
        size: CaptureSize::Custom { width: 320, height: 240 },
        fps: 30,
    };
    assert_eq!(destination_size(&custom, 1919, 1079), (320, 240));
}

#[test]
fn dib_rows_are_padded_to_four_bytes() {
    assert_eq!(dib_stride(0), 0);
    assert_eq!(dib_stride(1), 4);
    assert_eq!(dib_stride(320), 1280);
    assert_eq!(dib_stride(1919), 7676);
}

#[test]
fn bgrx_pixels_become_rgba() {
    let mut data = vec![1u8, 2, 3, 0, 10, 20, 30, 99, 7, 8];
    bgrx_to_rgba(&mut data);
    assert_eq!(data, vec![3u8, 2, 1, 255, 30, 20, 10, 255, 7, 8]);
}

#[test]
fn gdi_layout_refuses_an_empty_window() {
    let config = CaptureConfig { size: CaptureSize::UseSourceSize, fps: 30 };
    assert_eq!(
        gdi_frame_layout(&config, 0, 100),
        Err(GdiCaptureError::InvalidSourceSize { width: 0, height: 100 })
    );
    assert_eq!(
        gdi_frame_layout(&config, 640, -1),
        Err(GdiCaptureError::InvalidSourceSize { width: 640, height: -1 })
    );
}

#[test]
fn gdi_layout_scales_only_to_a_different_size() {
    let source = CaptureConfig { size: CaptureSize::UseSourceSize, fps: 30 };
    assert_eq!(
        gdi_frame_layout(&source, 800, 600),
        Ok(GdiFrameLayout { dst_width: 800, dst_height: 600, needs_scaling: false })
    );
    let custom = CaptureConfig {
        size: CaptureSize::Custom { width: 320, height: 240 },
        fps: 30,
    };
    assert_eq!(
        gdi_frame_layout(&custom, 800, 600),
        Ok(GdiFrameLayout { dst_width: 320, dst_height: 240, needs_scaling: true })
    );
    assert_eq!(
        gdi_frame_layout(&custom, 320, 240),
        Ok(GdiFrameLayout { dst_width: 320, dst_height: 240, needs_scaling: false })
    );
}

#[test]
fn dib_buffer_holds_every_padded_row() {
    assert_eq!(dib_buffer_len(3, 2), 24);
    assert_eq!(dib_buffer_len(1920, 1080), 1920 * 1080 * 4);
    assert_eq!(dib_buffer_len(0, 10), 0);
}
