use vstd::prelude::*;

verus! {

use crate::config::Config;
use crate::encoder::Encoder;
use crate::layout::ImportLayout;
use crate::layout::PixelLayout;

/// Why an encode call failed. Every failure is terminal for that call;
/// `EncodeError` keeps the codec's numeric diagnostic code, captured before
/// the picture descriptor is released.
#[derive(Clone, Copy, Debug, PartialEq, Eq, Structural)]
pub enum EncodeFailure {
    ConfigInitError,
    PictureInitError,
    ImportError,
    EncodeError(i32),
}

/// What the native codec reported back after the last requested action.
#[derive(Clone, Copy, Debug, PartialEq, Eq, Structural)]
pub enum Event {
    /// Outcome of the ABI-versioned configuration init.
    ConfigInit { ok: bool },
    /// Outcome of the ABI-versioned picture-descriptor init.
    PictureInit { ok: bool },
    /// The caller intent was applied and the memory sink was attached.
    Applied,
    /// Outcome of the layout-specific pixel import.
    Imported { ok: bool },
    /// Outcome of the encode primitive, with the descriptor's error code and
    /// the sink's accumulated size, both read before anything is released.
    Encoded { ok: bool, error_code: i32, size: usize },
    /// The picture descriptor's internal buffers were released.
    PictureFreed,
    /// The sink's accumulated memory was released.
    WriterCleared,
}

/// The next native call the driver must perform on behalf of the session.
#[derive(Clone, Copy, Debug, PartialEq, Eq, Structural)]
pub enum Action {
    /// Initialize the codec configuration with this quality and the default
    /// preset, at the pinned ABI version.
    InitConfig { quality: i32 },
    /// Initialize the zeroed picture descriptor at the pinned ABI version.
    InitPicture,
    /// Re-apply the caller intent that the generic inits overwrote: the
    /// lossless flag into both the configuration and the picture's
    /// color-mode selector, method and thread level into the configuration,
    /// the geometry into the picture; then attach the memory sink and reset
    /// its accounting to empty.
    Apply { lossless: bool, method: i32, multi_threading: bool, width: u32, height: u32 },
    /// Import the session's bytes with the layout-specific primitive and
    /// this row stride.
    Import { layout: ImportLayout, stride: u32 },
    /// Run the encode primitive.
    Encode,
    /// Release the picture descriptor's internal buffers.
    FreePicture,
    /// Release whatever the sink accumulated.
    ClearWriter,
    /// The session is finished; read the outcome from `result`.
    Finish,
}

/// Where the protocol stands: which event it awaits, or the outcome.
#[derive(Clone, Copy, Debug)]
pub enum Phase {
    AwaitConfigInit,
    AwaitPictureInit,
    AwaitApply,
    AwaitImport,
    AwaitEncode,
    /// The codec reported success with this sink size; the picture is being
    /// released before ownership of the sink is handed out.
    FreeingAfterSuccess { size: usize },
    /// The encode primitive failed with this code; the picture is released
    /// first, sink cleanup follows.
    FreeingAfterEncodeFailure { code: i32 },
    /// The import stage failed; the picture is released first, sink cleanup
    /// follows.
    FreeingAfterImportFailure,
    /// The picture is already released; the sink is being released.
    ClearingSink { failure: EncodeFailure },
    /// Terminal. On success the outcome carries the codec-reported size and
    /// sink ownership passes to the caller; on failure everything acquired
    /// was released.
    Done { outcome: Result<usize, EncodeFailure> },
}

/// One encode call in progress. The session owns the job's data and walks
/// the codec's call protocol step by step: it decides, the driver performs
/// the native calls and feeds the outcomes back. The counters record how
/// often each scoped native resource was acquired and released, so the
/// cleanup discipline is part of the verified state.
pub struct Session<'a> {
    pub cfg: Config,
    pub layout: PixelLayout,
    pub image: &'a [u8],
    pub width: u32,
    pub height: u32,
    pub phase: Phase,
    /// How often the picture descriptor was successfully initialized.
    pub picture_inits: u32,
    /// How often the picture descriptor was released.
    pub picture_frees: u32,
    /// How often the memory sink was attached and armed.
    pub sink_opens: u32,
    /// How often the sink's memory was explicitly released.
    pub sink_clears: u32,
    /// Whether sink ownership was handed out on success.
    pub output_transferred: bool,
}

/// True of an event that reports success; a successful encode always
/// reports a positive sink size, since even an empty image compresses to a
/// non-empty container.
pub open spec fn event_ok(e: Event) -> bool {
    match e {
        Event::ConfigInit { ok } => ok,
        Event::PictureInit { ok } => ok,
        Event::Applied => true,
        Event::Imported { ok } => ok,
        Event::Encoded { ok, error_code, size } => ok && size > 0,
        Event::PictureFreed => true,
        Event::WriterCleared => true,
    }
}

/// True of a phase that already reflects a failure of this call.
pub open spec fn failing_phase(p: Phase) -> bool {
    match p {
        Phase::FreeingAfterEncodeFailure { .. } => true,
        Phase::FreeingAfterImportFailure => true,
        Phase::ClearingSink { .. } => true,
        Phase::Done { outcome } => outcome is Err,
        _ => false,
    }
}

impl<'a> Session<'a> {
    /// The bytes actually handed to the importer: the normalized copy when
    /// the layout is `Other`, the borrowed image bytes otherwise.
    pub open spec fn effective_bytes(self) -> Seq<u8> {
        match self.layout {
            PixelLayout::Other(rgba) => rgba@,
            _ => self.image@,
        }
    }

    /// The arrangement actually handed to the importer.
    pub open spec fn effective_layout(self) -> ImportLayout {
        self.layout.import_layout_spec()
    }

    /// Row stride in bytes: width times bytes per pixel.
    pub open spec fn stride_spec(self) -> int {
        self.width * self.effective_layout().bpp_spec()
    }

    /// The input the import stage accepts: positive geometry, a stride the
    /// codec's signed stride argument can carry, and a pixel buffer at least
    /// width * height * bytes-per-pixel long.
    pub open spec fn input_ok(self) -> bool {
        &&& self.width > 0
        &&& self.height > 0
        &&& self.stride_spec() <= i32::MAX
        &&& self.effective_bytes().len() >= self.stride_spec() * self.height
    }

    /// Which event the session can take in its current phase.
    pub open spec fn accepts(self, e: Event) -> bool {
        match (self.phase, e) {
            (Phase::AwaitConfigInit, Event::ConfigInit { .. }) => true,
            (Phase::AwaitPictureInit, Event::PictureInit { .. }) => true,
            (Phase::AwaitApply, Event::Applied) => true,
            (Phase::AwaitImport, Event::Imported { .. }) => true,
            (Phase::AwaitEncode, Event::Encoded { .. }) => true,
            (Phase::FreeingAfterSuccess { .. }, Event::PictureFreed) => true,
            (Phase::FreeingAfterEncodeFailure { .. }, Event::PictureFreed) => true,
            (Phase::FreeingAfterImportFailure, Event::PictureFreed) => true,
            (Phase::ClearingSink { .. }, Event::WriterCleared) => true,
            _ => false,
        }
    }

    /// The protocol's transition function: the phase after taking `e`.
    pub open spec fn next_phase(self, e: Event) -> Phase {
        match (self.phase, e) {
            (Phase::AwaitConfigInit, Event::ConfigInit { ok }) => if ok {
                Phase::AwaitPictureInit
            } else {
                Phase::Done { outcome: Err(EncodeFailure::ConfigInitError) }
            },
            (Phase::AwaitPictureInit, Event::PictureInit { ok }) => if ok {
                Phase::AwaitApply
            } else {
                Phase::Done { outcome: Err(EncodeFailure::PictureInitError) }
            },
            (Phase::AwaitApply, Event::Applied) => if self.input_ok() {
                Phase::AwaitImport
            } else {
                Phase::FreeingAfterImportFailure
            },
            (Phase::AwaitImport, Event::Imported { ok }) => if ok {
                Phase::AwaitEncode
            } else {
                Phase::FreeingAfterImportFailure
            },
            (Phase::AwaitEncode, Event::Encoded { ok, error_code, size }) => if ok && size > 0 {
                Phase::FreeingAfterSuccess { size }
            } else {
                Phase::FreeingAfterEncodeFailure { code: error_code }
            },
            (Phase::FreeingAfterSuccess { size }, Event::PictureFreed) => Phase::Done {
                outcome: Ok(size),
            },
            (Phase::FreeingAfterEncodeFailure { code }, Event::PictureFreed) => Phase::ClearingSink {
                failure: EncodeFailure::EncodeError(code),
            },
            (Phase::FreeingAfterImportFailure, Event::PictureFreed) => Phase::ClearingSink {
                failure: EncodeFailure::ImportError,
            },
            (Phase::ClearingSink { failure }, Event::WriterCleared) => Phase::Done {
                outcome: Err(failure),
            },
            _ => self.phase,
        }
    }

    /// The action the session asks for when it stands in phase `p`.
    pub open spec fn action_for(self, p: Phase) -> Action {
        match p {
            Phase::AwaitConfigInit => Action::InitConfig { quality: self.cfg.quality },
            Phase::AwaitPictureInit => Action::InitPicture,
            Phase::AwaitApply => Action::Apply {
                lossless: self.cfg.lossless,
                method: self.cfg.method,
                multi_threading: self.cfg.multi_threading,
                width: self.width,
                height: self.height,
            },
            Phase::AwaitImport => Action::Import {
                layout: self.effective_layout(),
                stride: self.stride_spec() as u32,
            },
            Phase::AwaitEncode => Action::Encode,
            Phase::FreeingAfterSuccess { .. } => Action::FreePicture,
            Phase::FreeingAfterEncodeFailure { .. } => Action::FreePicture,
            Phase::FreeingAfterImportFailure => Action::FreePicture,
            Phase::ClearingSink { .. } => Action::ClearWriter,
            Phase::Done { .. } => Action::Finish,
        }
    }

    /// The action handed back after taking `e`.
    pub open spec fn next_action(self, e: Event) -> Action {
        self.action_for(self.next_phase(e))
    }

    /// The session's resource accounting agrees with its phase: each scoped
    /// resource is acquired at most once, nothing acquired is released
    /// twice, the picture is released before any sink cleanup starts, and a
    /// finished session has released everything it acquired — on success by
    /// transferring sink ownership, on failure by explicit release.
    pub open spec fn wf(self) -> bool {
        match self.phase {
            Phase::AwaitConfigInit => {
                &&& self.picture_inits == 0
                &&& self.picture_frees == 0
                &&& self.sink_opens == 0
                &&& self.sink_clears == 0
                &&& !self.output_transferred
            },
            Phase::AwaitPictureInit => {
                &&& self.picture_inits == 0
                &&& self.picture_frees == 0
                &&& self.sink_opens == 0
                &&& self.sink_clears == 0
                &&& !self.output_transferred
            },
            Phase::AwaitApply => {
                &&& self.picture_inits == 1
                &&& self.picture_frees == 0
                &&& self.sink_opens == 0
                &&& self.sink_clears == 0
                &&& !self.output_transferred
            },
            Phase::AwaitImport => {
                &&& self.picture_inits == 1
                &&& self.picture_frees == 0
                &&& self.sink_opens == 1
                &&& self.sink_clears == 0
                &&& !self.output_transferred
                &&& self.input_ok()
            },
            Phase::AwaitEncode => {
                &&& self.picture_inits == 1
                &&& self.picture_frees == 0
                &&& self.sink_opens == 1
                &&& self.sink_clears == 0
                &&& !self.output_transferred
                &&& self.input_ok()
            },
            Phase::FreeingAfterSuccess { size } => {
                &&& self.picture_inits == 1
                &&& self.picture_frees == 0
                &&& self.sink_opens == 1
                &&& self.sink_clears == 0
                &&& !self.output_transferred
                &&& size > 0
            },
            Phase::FreeingAfterEncodeFailure { .. } => {
                &&& self.picture_inits == 1
                &&& self.picture_frees == 0
                &&& self.sink_opens == 1
                &&& self.sink_clears == 0
                &&& !self.output_transferred
            },
            Phase::FreeingAfterImportFailure => {
                &&& self.picture_inits == 1
                &&& self.picture_frees == 0
                &&& self.sink_opens == 1
                &&& self.sink_clears == 0
                &&& !self.output_transferred
            },
            Phase::ClearingSink { failure } => {
                &&& self.picture_inits == 1
                &&& self.picture_frees == 1
                &&& self.sink_opens == 1
                &&& self.sink_clears == 0
                &&& !self.output_transferred
                &&& (failure is ImportError || failure is EncodeError)
            },
            Phase::Done { outcome } => {
                &&& self.picture_frees == self.picture_inits
                &&& self.picture_inits <= 1
                &&& match outcome {
                    Ok(size) => {
                        &&& self.sink_opens == 1
                        &&& self.sink_clears == 0
                        &&& self.output_transferred
                        &&& size > 0
                    },
                    Err(f) => {
                        &&& self.sink_clears == self.sink_opens
                        &&& self.sink_opens <= 1
                        &&& !self.output_transferred
                        &&& ((f is ConfigInitError || f is PictureInitError) ==> self.picture_inits
                            == 0 && self.sink_opens == 0)
                    },
                }
            },
        }
    }

    /// Executable check of `input_ok`; reads only lengths, never the pixel
    /// bytes themselves.
    pub fn check_input(&self) -> (b: bool)
        ensures
            b == self.input_ok(),
    {
        let bpp: u32 = self.layout.import_layout().bpp();
        let stride: u64 = (self.width as u64) * (bpp as u64);
        if self.width == 0 || self.height == 0 || stride > 0x7fff_ffff {
            return false;
        }
        let len: usize = self.bytes().len();
        proof {
            assert(stride * (self.height as u64) <= 0x7fff_ffff * 0xffff_ffffu64)
                by (nonlinear_arith)
                requires
                    stride <= 0x7fff_ffff,
                    self.height <= 0xffff_ffffu64,
            ;
        }
        (len as u64) >= stride * (self.height as u64)
    }

    /// The bytes the importer reads, per `effective_bytes`.
    pub fn bytes(&self) -> (r: &[u8])
        ensures
            r@ == self.effective_bytes(),
    {
        match &self.layout {
            PixelLayout::Other(rgba) => rgba.as_slice(),
            _ => self.image,
        }
    }

    /// True once the session has finished.
    pub fn is_done(&self) -> (b: bool)
        ensures
            b == (self.phase is Done),
    {
        match self.phase {
            Phase::Done { .. } => true,
            _ => false,
        }
    }

    /// The finished session's outcome: the codec-reported size of the
    /// compressed bytes whose ownership passed to the caller, or the typed
    /// failure.
    pub fn result(&self) -> (r: Result<usize, EncodeFailure>)
        requires
            self.phase is Done,
        ensures
            self.phase == (Phase::Done { outcome: r }),
    {
        match self.phase {
            Phase::Done { outcome } => outcome,
            _ => Err(EncodeFailure::ConfigInitError),
        }
    }

    /// Takes the event the driver observed and moves the protocol one step:
    /// the new phase and the returned action are exactly `next_phase` and
    /// `next_action`, the job's data never changes, the resource counters
    /// advance with the event, and well-formedness is preserved.
    pub fn step(&mut self, e: Event) -> (a: Action)
        requires
            old(self).wf(),
            old(self).accepts(e),
        ensures
            final(self).phase == old(self).next_phase(e),
            a == old(self).next_action(e),
            final(self).cfg == old(self).cfg,
            final(self).layout == old(self).layout,
            final(self).image == old(self).image,
            final(self).width == old(self).width,
            final(self).height == old(self).height,
            final(self).picture_inits == old(self).picture_inits + (if (e matches Event::PictureInit {
                ok,
            } && ok) {
                1int
            } else {
                0int
            }),
            final(self).picture_frees == old(self).picture_frees + (if e is PictureFreed {
                1int
            } else {
                0int
            }),
            final(self).sink_opens == old(self).sink_opens + (if e is Applied {
                1int
            } else {
                0int
            }),
            final(self).sink_clears == old(self).sink_clears + (if e is WriterCleared {
                1int
            } else {
                0int
            }),
            final(self).output_transferred == (old(self).output_transferred || (final(self).phase
                matches Phase::Done { outcome } && outcome is Ok)),
            final(self).wf(),
    {
        let new_phase: Phase = match (self.phase, e) {
            (Phase::AwaitConfigInit, Event::ConfigInit { ok }) => {
                if ok {
                    Phase::AwaitPictureInit
                } else {
                    Phase::Done { outcome: Err(EncodeFailure::ConfigInitError) }
                }
            },
            (Phase::AwaitPictureInit, Event::PictureInit { ok }) => {
                if ok {
                    self.picture_inits = self.picture_inits + 1;
                    Phase::AwaitApply
                } else {
                    Phase::Done { outcome: Err(EncodeFailure::PictureInitError) }
                }
            },
            (Phase::AwaitApply, Event::Applied) => {
                self.sink_opens = self.sink_opens + 1;
                if self.check_input() {
                    Phase::AwaitImport
                } else {
                    Phase::FreeingAfterImportFailure
                }
            },
            (Phase::AwaitImport, Event::Imported { ok }) => {
                if ok {
                    Phase::AwaitEncode
                } else {
                    Phase::FreeingAfterImportFailure
                }
            },
            (Phase::AwaitEncode, Event::Encoded { ok, error_code, size }) => {
                if ok && size > 0 {
                    Phase::FreeingAfterSuccess { size }
                } else {
                    Phase::FreeingAfterEncodeFailure { code: error_code }
                }
            },
            (Phase::FreeingAfterSuccess { size }, Event::PictureFreed) => {
                self.picture_frees = self.picture_frees + 1;
                self.output_transferred = true;
                Phase::Done { outcome: Ok(size) }
            },
            (Phase::FreeingAfterEncodeFailure { code }, Event::PictureFreed) => {
                self.picture_frees = self.picture_frees + 1;
                Phase::ClearingSink { failure: EncodeFailure::EncodeError(code) }
            },
            (Phase::FreeingAfterImportFailure, Event::PictureFreed) => {
                self.picture_frees = self.picture_frees + 1;
                Phase::ClearingSink { failure: EncodeFailure::ImportError }
            },
            (Phase::ClearingSink { failure }, Event::WriterCleared) => {
                self.sink_clears = self.sink_clears + 1;
                Phase::Done { outcome: Err(failure) }
            },
            _ => self.phase,
        };
        self.phase = new_phase;
        self.action_now()
    }

    /// The action for the current phase, per `action_for`.
    fn action_now(&self) -> (a: Action)
        requires
            self.phase is AwaitImport ==> self.input_ok(),
        ensures
            a == self.action_for(self.phase),
    {
        match self.phase {
            Phase::AwaitConfigInit => Action::InitConfig { quality: self.cfg.quality },
            Phase::AwaitPictureInit => Action::InitPicture,
            Phase::AwaitApply => Action::Apply {
                lossless: self.cfg.lossless,
                method: self.cfg.method,
                multi_threading: self.cfg.multi_threading,
                width: self.width,
                height: self.height,
            },
            Phase::AwaitImport => {
                let bpp: u32 = self.layout.import_layout().bpp();
                Action::Import {
                    layout: self.layout.import_layout(),
                    stride: self.width * bpp,
                }
            },
            Phase::AwaitEncode => Action::Encode,
            Phase::FreeingAfterSuccess { .. } => Action::FreePicture,
            Phase::FreeingAfterEncodeFailure { .. } => Action::FreePicture,
            Phase::FreeingAfterImportFailure => Action::FreePicture,
            Phase::ClearingSink { .. } => Action::ClearWriter,
            Phase::Done { .. } => Action::Finish,
        }
    }
}

/// The protocol never fails of its own accord: a session over a valid input
/// that is not already failing is moved into a failing phase only by an
/// event that itself reports a failure. So, for every geometry with
/// positive width and height and a correctly sized, correctly strided
/// buffer, the call succeeds whenever the codec does.
pub proof fn lemma_success_events_never_fail(s: Session, e: Event)
    requires
        s.wf(),
        s.accepts(e),
        s.input_ok(),
        !failing_phase(s.phase),
        event_ok(e),
    ensures
        !failing_phase(s.next_phase(e)),
{
}

/// The whole success path, spelled out: from the start of the protocol, a
/// run in which every native call succeeds ends in `Done` with exactly the
/// codec-reported size — for every valid input and every positive size.
pub proof fn lemma_success_run(s: Session, code: i32, size: usize)
    requires
        s.wf(),
        s.phase is AwaitConfigInit,
        s.input_ok(),
        size > 0,
    ensures
        ({
            let s1 = (Session { phase: s.next_phase(Event::ConfigInit { ok: true }), ..s });
            let s2 = (Session { phase: s1.next_phase(Event::PictureInit { ok: true }), ..s1 });
            let s3 = (Session { phase: s2.next_phase(Event::Applied), ..s2 });
            let s4 = (Session { phase: s3.next_phase(Event::Imported { ok: true }), ..s3 });
            let s5 = (Session {
                phase: s4.next_phase(Event::Encoded { ok: true, error_code: code, size }),
                ..s4
            });
            &&& s1.phase is AwaitPictureInit
            &&& s2.phase is AwaitApply
            &&& s3.phase is AwaitImport
            &&& s4.phase is AwaitEncode
            &&& s5.phase == (Phase::FreeingAfterSuccess { size })
            &&& s5.next_phase(Event::PictureFreed) == (Phase::Done { outcome: Ok(size) })
        }),
{
}

/// A finished successful session hands out a positive size: a zero-size
/// buffer is never returned on success.
pub proof fn lemma_success_output_nonempty(s: Session, size: usize)
    requires
        s.wf(),
        s.phase == (Phase::Done { outcome: Ok::<usize, EncodeFailure>(size) }),
    ensures
        size > 0,
{
}

/// The protocol is a function of the session's data and the event alone:
/// two sessions in the same phase, over the same configuration, geometry
/// and effective bytes, move to the same phase and ask for the same action
/// on every event. Byte-identical output for repeated calls then rests only
/// on the codec itself being deterministic.
pub proof fn lemma_step_deterministic(a: Session, b: Session, e: Event)
    requires
        a.phase == b.phase,
        a.cfg == b.cfg,
        a.width == b.width,
        a.height == b.height,
        a.effective_bytes() == b.effective_bytes(),
        a.effective_layout() == b.effective_layout(),
    ensures
        a.next_phase(e) == b.next_phase(e),
        a.next_action(e) == b.next_action(e),
{
}

/// A pixel buffer shorter than width * height * bytes-per-pixel is turned
/// away at the import stage: the session goes straight to cleanup and ends
/// in `ImportError`, and it never asks the driver to import from the
/// buffer, so the short buffer is never read at all.
pub proof fn lemma_short_buffer_rejected(s: Session)
    requires
        s.wf(),
        s.phase is AwaitApply,
        s.effective_bytes().len() < s.stride_spec() * s.height,
    ensures
        s.next_phase(Event::Applied) == Phase::FreeingAfterImportFailure,
        s.next_action(Event::Applied) == Action::FreePicture,
        ({
            let s1 = (Session { phase: Phase::FreeingAfterImportFailure, ..s });
            let s2 = (Session { phase: s1.next_phase(Event::PictureFreed), ..s1 });
            &&& s2.phase == (Phase::ClearingSink { failure: EncodeFailure::ImportError })
            &&& s2.next_phase(Event::WriterCleared) == (Phase::Done {
                outcome: Err(EncodeFailure::ImportError),
            })
        }),
{
    assert(!s.input_ok());
}

/// Encoding through the `Other` layout is the same as encoding the
/// converted RGBA bytes directly: the two sessions read the same bytes as
/// the same layout, and every event moves them alike.
pub proof fn lemma_other_path_matches_rgba(a: Session, b: Session)
    requires
        a.layout matches PixelLayout::Other(rgba) && rgba@ == b.image@,
        b.layout is RGBA,
        a.phase == b.phase,
        a.cfg == b.cfg,
        a.width == b.width,
        a.height == b.height,
    ensures
        a.effective_bytes() == b.effective_bytes(),
        a.effective_layout() == b.effective_layout(),
        forall|e: Event| #[trigger] a.next_phase(e) == b.next_phase(e),
        forall|e: Event| #[trigger] a.next_action(e) == b.next_action(e),
{
    assert forall|e: Event| #[trigger] a.next_phase(e) == b.next_phase(e) by {
        lemma_step_deterministic(a, b, e);
    }
    assert forall|e: Event| #[trigger] a.next_action(e) == b.next_action(e) by {
        lemma_step_deterministic(a, b, e);
    }
}

/// A session that failed at the encode step reports the codec's numeric
/// diagnostic code, unchanged, in its final outcome. The code travels in
/// the phase itself, so it was captured before the picture was released.
pub proof fn lemma_encode_failure_keeps_code(s: Session, code: i32, size: usize)
    requires
        s.wf(),
        s.phase is AwaitEncode,
    ensures
        ({
            let s1 = (Session {
                phase: s.next_phase(Event::Encoded { ok: false, error_code: code, size }),
                ..s
            });
            let s2 = (Session { phase: s1.next_phase(Event::PictureFreed), ..s1 });
            &&& s1.phase == (Phase::FreeingAfterEncodeFailure { code })
            &&& s2.phase == (Phase::ClearingSink { failure: EncodeFailure::EncodeError(code) })
            &&& s2.next_phase(Event::WriterCleared) == (Phase::Done {
                outcome: Err(EncodeFailure::EncodeError(code)),
            })
        }),
{
}

/// After an import-stage failure nothing acquired remains unreleased: the
/// picture descriptor was released as often as it was set up, the sink
/// likewise, and no ownership was handed out.
pub proof fn lemma_import_failure_releases_everything(s: Session)
    requires
        s.wf(),
        s.phase == (Phase::Done { outcome: Err::<usize, EncodeFailure>(EncodeFailure::ImportError) }),
    ensures
        s.picture_frees == s.picture_inits,
        s.sink_clears == s.sink_opens,
        !s.output_transferred,
{
}

/// Every finished session has settled both scoped resources: the picture
/// descriptor is released exactly as often as it was acquired on every
/// path; on failure the sink was released explicitly and never handed out,
/// on success it was handed out exactly once and not also released.
pub proof fn lemma_finished_session_releases_everything(s: Session)
    requires
        s.wf(),
        s.phase is Done,
    ensures
        s.picture_frees == s.picture_inits,
        (s.phase matches Phase::Done { outcome } && outcome is Err) ==> (s.sink_clears
            == s.sink_opens && !s.output_transferred),
        (s.phase matches Phase::Done { outcome } && outcome is Ok) ==> (s.sink_opens == 1
            && s.sink_clears == 0 && s.output_transferred),
{
}

/// The picture descriptor is always released before sink cleanup begins, so
/// the two release steps can never race or double up.
pub proof fn lemma_picture_freed_before_sink_cleanup(s: Session)
    requires
        s.wf(),
        s.phase is ClearingSink,
    ensures
        s.picture_inits == 1,
        s.picture_frees == 1,
        s.sink_clears == 0,
{
}

impl<'a> Encoder<'a> {
    /// Starts the encode protocol, consuming the encoder. The returned
    /// session carries the job unchanged and asks first for the
    /// configuration init; no native resource is acquired yet.
    pub fn encode(self) -> (r: (Session<'a>, Action))
        ensures
            r.0.cfg == self.cfg,
            r.0.layout == self.layout,
            r.0.image == self.image,
            r.0.width == self.width,
            r.0.height == self.height,
            r.0.phase is AwaitConfigInit,
            r.0.wf(),
            r.1 == (Action::InitConfig { quality: self.cfg.quality }),
            r.1 == r.0.action_for(r.0.phase),
    {
        let s = Session {
            cfg: self.cfg,
            layout: self.layout,
            image: self.image,
            width: self.width,
            height: self.height,
            phase: Phase::AwaitConfigInit,
            picture_inits: 0,
            picture_frees: 0,
            sink_opens: 0,
            sink_clears: 0,
            output_transferred: false,
        };
        let a = Action::InitConfig { quality: s.cfg.quality };
        (s, a)
    }
}

} // verus!

