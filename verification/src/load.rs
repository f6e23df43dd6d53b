use vstd::prelude::*;

verus! {

/// A request the core makes of the frontend through its environment
/// callback.
#[derive(PartialEq, Eq, Structural, Clone, Copy, Debug)]
pub enum EnvRequest {
    /// Tell the frontend that the core runs without content.
    SupportNoGame,
    /// Ask the frontend for its logging interface.
    GetLogInterface,
    /// Ask for frames in the 32-bit XRGB8888 pixel format.
    SetPixelFormatXrgb8888,
    /// Ask for an OpenGL 2.1 hardware rendering context.
    SetHwRenderOpenGl,
}

/// Why loading a game was refused.
#[derive(PartialEq, Eq, Structural, Clone, Copy, Debug)]
pub enum LoadError {
    /// The frontend passed a content path; the core takes none.
    ContentPathGiven,
    /// The frontend refused the XRGB8888 pixel format.
    PixelFormatUnsupported,
    /// The frontend could not set up the hardware rendering context.
    HwContextUnavailable,
}

/// Where the negotiation of a game load stands.
#[derive(PartialEq, Eq, Structural, Clone, Copy, Debug)]
pub enum LoadState {
    /// The pixel format was requested; its reply is awaited.
    AwaitingPixelFormat,
    /// The hardware context was requested; its reply is awaited.
    AwaitingHwRender,
    /// The load has been decided.
    Finished,
}

/// What the core does next while loading a game.
#[derive(PartialEq, Eq, Clone, Copy, Debug)]
pub enum LoadStep {
    /// Make this request of the frontend and hand its reply back.
    Ask(EnvRequest),
    /// Stop: the load succeeded, or failed for the given reason.
    Finish(Result<(), LoadError>),
}

/// The first step of a load, depending on whether a content path was given.
pub open spec fn load_begin_spec(content_path_given: bool) -> (LoadState, LoadStep) {
    if content_path_given {
        (LoadState::Finished, LoadStep::Finish(Err(LoadError::ContentPathGiven)))
    } else {
        (LoadState::AwaitingPixelFormat, LoadStep::Ask(EnvRequest::SetPixelFormatXrgb8888))
    }
}

/// The step after the frontend replied `accepted` to the awaited request.
pub open spec fn load_reply_spec(state: LoadState, accepted: bool) -> (LoadState, LoadStep) {
    match state {
        LoadState::AwaitingPixelFormat => {
            if accepted {
                (LoadState::AwaitingHwRender, LoadStep::Ask(EnvRequest::SetHwRenderOpenGl))
            } else {
                (LoadState::Finished, LoadStep::Finish(Err(LoadError::PixelFormatUnsupported)))
            }
        },
        LoadState::AwaitingHwRender => {
            if accepted {
                (LoadState::Finished, LoadStep::Finish(Ok(())))
            } else {
                (LoadState::Finished, LoadStep::Finish(Err(LoadError::HwContextUnavailable)))
            }
        },
        LoadState::Finished => (LoadState::Finished, LoadStep::Finish(Ok(()))),
    }
}

/// How a load ends, given whether a content path was given and how the
/// frontend answers the pixel format and the hardware context requests.
pub open spec fn load_outcome(content_path_given: bool, pixel_format_ok: bool, hw_render_ok: bool) -> Result<
    (),
    LoadError,
> {
    if content_path_given {
        Err(LoadError::ContentPathGiven)
    } else if !pixel_format_ok {
        Err(LoadError::PixelFormatUnsupported)
    } else if !hw_render_ok {
        Err(LoadError::HwContextUnavailable)
    } else {
        Ok(())
    }
}

/// The requests a load makes, in order, given the same answers.
pub open spec fn load_requests(content_path_given: bool, pixel_format_ok: bool) -> Seq<EnvRequest> {
    if content_path_given {
        seq![]
    } else if !pixel_format_ok {
        seq![EnvRequest::SetPixelFormatXrgb8888]
    } else {
        seq![EnvRequest::SetPixelFormatXrgb8888, EnvRequest::SetHwRenderOpenGl]
    }
}

/// Drives the negotiation from `state` and `step`, answering the requests
/// with `replies` in turn: the requests made, and the outcome once reached.
pub open spec fn run_load(state: LoadState, step: LoadStep, replies: Seq<bool>) -> (
    Seq<EnvRequest>,
    Option<Result<(), LoadError>>,
)
    decreases replies.len(),
{
    match step {
        LoadStep::Finish(outcome) => (seq![], Some(outcome)),
        LoadStep::Ask(request) => {
            if replies.len() == 0 {
                (seq![request], None)
            } else {
                let next = load_reply_spec(state, replies[0]);
                let rest = run_load(next.0, next.1, replies.drop_first());
                (seq![request] + rest.0, rest.1)
            }
        },
    }
}

/// Starts loading a game.
pub fn load_begin(content_path_given: bool) -> (r: (LoadState, LoadStep))
    ensures
        r == load_begin_spec(content_path_given),
        r.1 is Finish <==> r.0 == LoadState::Finished,
        content_path_given <==> r.1 is Finish,
        content_path_given ==> r.1 == LoadStep::Finish(Err(LoadError::ContentPathGiven)),
{
    if content_path_given {
        (LoadState::Finished, LoadStep::Finish(Err(LoadError::ContentPathGiven)))
    } else {
        (LoadState::AwaitingPixelFormat, LoadStep::Ask(EnvRequest::SetPixelFormatXrgb8888))
    }
}

/// Takes the frontend's reply to the awaited request and decides the next
/// step.
pub fn load_reply(state: LoadState, accepted: bool) -> (r: (LoadState, LoadStep))
    requires
        state != LoadState::Finished,
    ensures
        r == load_reply_spec(state, accepted),
        r.1 is Finish <==> r.0 == LoadState::Finished,
        !accepted ==> r.0 == LoadState::Finished && r.1 matches LoadStep::Finish(Err(_)),
        accepted && state == LoadState::AwaitingPixelFormat ==> r == (
        LoadState::AwaitingHwRender,
        LoadStep::Ask(EnvRequest::SetHwRenderOpenGl),
        ),
        accepted && state == LoadState::AwaitingHwRender ==> r == (
        LoadState::Finished,
        LoadStep::Finish(Ok(())),
        ),
{
    match state {
        LoadState::AwaitingPixelFormat => {
            if accepted {
                (LoadState::AwaitingHwRender, LoadStep::Ask(EnvRequest::SetHwRenderOpenGl))
            } else {
                (LoadState::Finished, LoadStep::Finish(Err(LoadError::PixelFormatUnsupported)))
            }
        },
        LoadState::AwaitingHwRender => {
            if accepted {
                (LoadState::Finished, LoadStep::Finish(Ok(())))
            } else {
                (LoadState::Finished, LoadStep::Finish(Err(LoadError::HwContextUnavailable)))
            }
        },
        LoadState::Finished => (LoadState::Finished, LoadStep::Finish(Ok(()))),
    }
}

impl LoadError {
    /// The message logged when the load fails for this reason; the first
    /// holds a `%s` for the content path that was given.
    pub fn message(&self) -> (m: &'static str)
        ensures
            m@ == (match self {
                LoadError::ContentPathGiven =>
                    "\n  This core doesn't support specifying content files / paths explicitly.\n  Please remove the \"%s\" argument.\n"@,
                LoadError::PixelFormatUnsupported => "XRGB8888 is not supported.\n"@,
                LoadError::HwContextUnavailable => "HW Context could not be initialized.\n"@,
            }),
    {
        match self {
            LoadError::ContentPathGiven =>
                "\n  This core doesn't support specifying content files / paths explicitly.\n  Please remove the \"%s\" argument.\n",
            LoadError::PixelFormatUnsupported => "XRGB8888 is not supported.\n",
            LoadError::HwContextUnavailable => "HW Context could not be initialized.\n",
        }
    }
}

/// The hardware rendering context the core asks for.
#[derive(PartialEq, Eq, Structural, Clone, Copy, Debug)]
pub struct HwRenderConfig {
    pub version_major: u32,
    pub version_minor: u32,
    pub depth: bool,
    pub stencil: bool,
    pub bottom_left_origin: bool,
    pub cache_context: bool,
    pub debug_context: bool,
}

/// An OpenGL 2.1 context with neither depth nor stencil buffer, origin at
/// the bottom left, not kept across resets and without debugging.
pub fn hw_render_config() -> (c: HwRenderConfig)
    ensures
        c == (HwRenderConfig {
            version_major: 2,
            version_minor: 1,
            depth: false,
            stencil: false,
            bottom_left_origin: true,
            cache_context: false,
            debug_context: false,
        }),
{
    HwRenderConfig {
        version_major: 2,
        version_minor: 1,
        depth: false,
        stencil: false,
        bottom_left_origin: true,
        cache_context: false,
        debug_context: false,
    }
}

/// The requests made when the frontend hands the core its environment
/// callback, in order.
pub fn setup_requests() -> (requests: [EnvRequest; 2])
    ensures
        requests@ == seq![EnvRequest::SupportNoGame, EnvRequest::GetLogInterface],
{
    [EnvRequest::SupportNoGame, EnvRequest::GetLogInterface]
}

/// The logging interface the core keeps: the one the frontend offered, when
/// it accepted the request for it, and none otherwise.
pub fn select_log_interface<T>(accepted: bool, offered: Option<T>) -> (kept: Option<T>)
    ensures
        kept == (if accepted {
            offered
        } else {
            None::<T>
        }),
{
    if accepted {
        offered
    } else {
        None
    }
}

/// Loading a game is the sequence the core promises: with a content path it
/// refuses at once and asks nothing; otherwise it asks for the pixel format,
/// then, only if that was accepted, for the hardware context, and succeeds
/// exactly when both were accepted. Replies beyond those two are never
/// consumed.
pub proof fn lemma_load_protocol(
    content_path_given: bool,
    pixel_format_ok: bool,
    hw_render_ok: bool,
    later: Seq<bool>,
)
    ensures
        ({
            let start = load_begin_spec(content_path_given);
            run_load(start.0, start.1, seq![pixel_format_ok, hw_render_ok] + later) == (
            load_requests(content_path_given, pixel_format_ok),
            Some(load_outcome(content_path_given, pixel_format_ok, hw_render_ok)),
            )
        }),
        load_outcome(content_path_given, pixel_format_ok, hw_render_ok) is Ok <==> (
        !content_path_given && pixel_format_ok && hw_render_ok),
{
    let replies = seq![pixel_format_ok, hw_render_ok] + later;
    let start = load_begin_spec(content_path_given);
    reveal_with_fuel(run_load, 3);
    if !content_path_given {
        assert(replies[0] == pixel_format_ok);
        assert(replies.drop_first()[0] == hw_render_ok);
        let s1 = load_reply_spec(start.0, pixel_format_ok);
        if pixel_format_ok {
            let s2 = load_reply_spec(s1.0, hw_render_ok);
            assert(run_load(s2.0, s2.1, replies.drop_first().drop_first()) == (
            Seq::<EnvRequest>::empty(),
            Some(load_outcome(content_path_given, pixel_format_ok, hw_render_ok)),
            ));
            assert(run_load(s1.0, s1.1, replies.drop_first()).0 == seq![
                EnvRequest::SetHwRenderOpenGl,
            ]);
        }
    }
}

/// A step that ends the load always comes with the finished state, and a
/// request always with a state that awaits its reply: whoever drives the
/// negotiation by its state never asks again once the load is decided.
pub proof fn lemma_finish_means_finished(content_path_given: bool, state: LoadState, accepted: bool)
    requires
        state != LoadState::Finished,
    ensures
        load_begin_spec(content_path_given).1 is Finish <==> load_begin_spec(content_path_given).0
            == LoadState::Finished,
        load_reply_spec(state, accepted).1 is Finish <==> load_reply_spec(state, accepted).0
            == LoadState::Finished,
        load_begin_spec(content_path_given).1 is Ask ==> load_begin_spec(content_path_given).0
            == LoadState::AwaitingPixelFormat,
{
}

/// A refused request ends the load with an error, whichever request it was;
/// a content path ends it at once with the content-path error.
pub proof fn lemma_refusal_ends_load(state: LoadState)
    requires
        state != LoadState::Finished,
    ensures
        load_reply_spec(state, false).0 == LoadState::Finished,
        load_reply_spec(state, false).1 is Finish,
        load_reply_spec(state, false).1 matches LoadStep::Finish(Err(_)),
        load_reply_spec(state, false).1 == LoadStep::Finish(Err(
            if state == LoadState::AwaitingPixelFormat {
                LoadError::PixelFormatUnsupported
            } else {
                LoadError::HwContextUnavailable
            },
        )),
        load_begin_spec(true) == (
        LoadState::Finished,
        LoadStep::Finish(Err(LoadError::ContentPathGiven)),
        ),
{
}

} // verus!
