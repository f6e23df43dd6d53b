use flaretro::load::{
    hw_render_config, load_begin, load_reply, select_log_interface, setup_requests, EnvRequest,
    HwRenderConfig, LoadError, LoadState, LoadStep,
};

fn drive(path_given: bool, pixel_format_ok: bool, hw_ok: bool) -> (Vec<EnvRequest>, Result<(), LoadError>) {
    let mut asked = Vec::new();
    let (mut state, mut step) = load_begin(path_given);
    loop {
        match step {
            LoadStep::Finish(outcome) => return (asked, outcome),
            LoadStep::Ask(request) => {
                asked.push(request);
                let accepted = match request {
                    EnvRequest::SetPixelFormatXrgb8888 => pixel_format_ok,
                    EnvRequest::SetHwRenderOpenGl => hw_ok,
                    _ => panic!("unexpected request"),
                };
                assert_ne!(state, LoadState::Finished);
                let next = load_reply(state, accepted);
                state = next.0;
                step = next.1;
            }
        }
    }
}

#[test]
fn load_succeeds_when_frontend_agrees() {
    let (asked, outcome) = drive(false, true, true);
    assert_eq!(asked, vec![EnvRequest::SetPixelFormatXrgb8888, EnvRequest::SetHwRenderOpenGl]);
    assert_eq!(outcome, Ok(()));
}

#[test]
fn load_refuses_content_path_without_asking() {
    for pf in [false, true] {
        for hw in [false, true] {
            let (asked, outcome) = drive(true, pf, hw);
            assert!(asked.is_empty());
            assert_eq!(outcome, Err(LoadError::ContentPathGiven));
        }
    }
}

#[test]
fn load_stops_after_refused_pixel_format() {
    let (asked, outcome) = drive(false, false, true);
    assert_eq!(asked, vec![EnvRequest::SetPixelFormatXrgb8888]);
    assert_eq!(outcome, Err(LoadError::PixelFormatUnsupported));
}

#[test]
fn load_fails_without_hw_context() {
    let (asked, outcome) = drive(false, true, false);
    assert_eq!(asked, vec![EnvRequest::SetPixelFormatXrgb8888, EnvRequest::SetHwRenderOpenGl]);
    assert_eq!(outcome, Err(LoadError::HwContextUnavailable));
}

#[test]
fn single_steps() {
    assert_eq!(
        load_begin(false),
        (LoadState::AwaitingPixelFormat, LoadStep::Ask(EnvRequest::SetPixelFormatXrgb8888))
    );
    assert_eq!(
        load_reply(LoadState::AwaitingHwRender, true),
        (LoadState::Finished, LoadStep::Finish(Ok(())))
    );
}

#[test]
fn failure_messages() {
    assert_eq!(
        LoadError::ContentPathGiven.message(),
        "\n  This core doesn't support specifying content files / paths explicitly.\n  Please remove the \"%s\" argument.\n"
    );
    assert_eq!(LoadError::PixelFormatUnsupported.message(), "XRGB8888 is not supported.\n");
    assert_eq!(LoadError::HwContextUnavailable.message(), "HW Context could not be initialized.\n");
}

#[test]
fn log_interface_kept_only_when_accepted() {
    assert_eq!(select_log_interface(true, Some(3u8)), Some(3));
    assert_eq!(select_log_interface(true, None::<u8>), None);
    assert_eq!(select_log_interface(false, Some(3u8)), None);
}

#[test]
fn setup_asks_no_game_support_then_logging() {
    assert_eq!(setup_requests(), [EnvRequest::SupportNoGame, EnvRequest::GetLogInterface]);
}

#[test]
fn hw_context_is_opengl_two_one() {
    assert_eq!(
        hw_render_config(),
        HwRenderConfig {
            version_major: 2,
            version_minor: 1,
            depth: false,
            stencil: false,
            bottom_left_origin: true,
            cache_context: false,
            debug_context: false,
        }
    );
}
