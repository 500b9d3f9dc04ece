use vstd::prelude::*;

use crate::clock::Timestamp;
use crate::error::Error;
use crate::hear::{stop_outcome, Hearer, State};
use crate::write::Text;

verus! {

/// The `stop` of the last segment, or 0 when there is none.
pub open spec fn last_stop(segments: Seq<Text>) -> int {
    if segments.len() == 0 {
        0
    } else {
        segments.last().stop as int
    }
}

/// A segment is confirmed (already seen) when it ends at or before the
/// boundary, or when it straddles the boundary.
pub open spec fn confirmed(segment: Text, boundary: int) -> bool {
    segment.stop <= boundary || (segment.stop > boundary && segment.start < boundary)
}

/// The texts of the segments joined with single spaces.
pub open spec fn joined(segments: Seq<Text>) -> Seq<char>
    decreases segments.len(),
{
    if segments.len() == 0 {
        Seq::<char>::empty()
    } else if segments.len() == 1 {
        segments[0].text@
    } else {
        joined(segments.drop_last()) + seq![' '] + segments.last().text@
    }
}

/// The progress indicator for a loader step: zero to three dots.
pub open spec fn loader_dots(step: nat) -> Seq<char> {
    if step == 0 {
        Seq::<char>::empty()
    } else if step == 1 {
        seq!['.']
    } else if step == 2 {
        seq!['.', '.']
    } else {
        seq!['.', '.', '.']
    }
}

/// The transcript history of a dictation session, with what is shown about it.
///
/// `text` holds the segments of the latest transcription run; `last` is the
/// boundary: the `stop` of the last segment of the run before it.
pub struct App {
    last: i64,
    text: Vec<Text>,
    notifications: String,
    running: bool,
    loader: usize,
}

/// `after` is `before` once `segments` replaced its transcript.
pub open spec fn added_text(before: App, after: App, segments: Seq<Text>) -> bool {
    &&& after.boundary() == last_stop(before.segments())
    &&& after.segments() == segments
    &&& after.notifications() == before.notifications()
    &&& after.running() == before.running()
    &&& after.loader() == before.loader()
}

/// What a stop leaves of `before` once transcription produced `out`: on
/// success the new segments replace the transcript, the boundary moves to the
/// end of the replaced one and recording ends; on failure nothing changes and
/// the error is returned.
pub open spec fn stop_applied(
    before: App,
    after: App,
    out: Result<Vec<Text>, Error>,
    r: Result<(), Error>,
) -> bool {
    match out {
        Ok(segments) => {
            &&& r is Ok
            &&& after.boundary() == last_stop(before.segments())
            &&& after.segments() == segments@
            &&& !after.running()
            &&& after.loader() == 0
            &&& after.notifications() == before.notifications()
        },
        Err(e) => r == Err::<(), Error>(e) && after == before,
    }
}

impl App {
    pub closed spec fn boundary(&self) -> int {
        self.last as int
    }

    pub closed spec fn segments(&self) -> Seq<Text> {
        self.text@
    }

    pub closed spec fn notifications(&self) -> Seq<char> {
        self.notifications@
    }

    pub closed spec fn running(&self) -> bool {
        self.running
    }

    pub closed spec fn loader(&self) -> nat {
        self.loader as nat
    }

    pub open spec fn wf(&self) -> bool {
        self.loader() < 4
    }

    pub fn new() -> (r: App)
        ensures
            r.wf(),
            r.boundary() == 0,
            r.segments() == Seq::<Text>::empty(),
            r.notifications() == Seq::<char>::empty(),
            !r.running(),
            r.loader() == 0,
    {
        App {
            last: 0,
            text: Vec::new(),
            notifications: String::new(),
            running: false,
            loader: 0,
        }
    }

    pub fn start(&mut self)
        ensures
            final(self).running(),
            final(self).boundary() == old(self).boundary(),
            final(self).segments() == old(self).segments(),
            final(self).notifications() == old(self).notifications(),
            final(self).loader() == old(self).loader(),
    {
        self.running = true;
    }

    pub fn stop(&mut self)
        ensures
            !final(self).running(),
            final(self).boundary() == old(self).boundary(),
            final(self).segments() == old(self).segments(),
            final(self).notifications() == old(self).notifications(),
            final(self).loader() == old(self).loader(),
    {
        self.running = false;
    }

    /// Replaces the transcript with the segments of a new run over the whole
    /// buffer; the boundary becomes the `stop` of the last segment of the
    /// transcript it replaces (0 when that was empty).
    pub fn add_text(&mut self, new_text: Vec<Text>)
        ensures
            added_text(*old(self), *final(self), new_text@),
    {
        let n = self.text.len();
        self.last = if n == 0 {
            0
        } else {
            self.text[n - 1].stop
        };
        self.text = new_text;
    }

    /// Appends a line to the notifications.
    pub fn add_notification(&mut self, notification: &str)
        ensures
            final(self).notifications() == old(self).notifications() + notification@ + seq!['\n'],
            final(self).boundary() == old(self).boundary(),
            final(self).segments() == old(self).segments(),
            final(self).running() == old(self).running(),
            final(self).loader() == old(self).loader(),
    {
        proof {
            reveal_strlit("\n");
        }
        self.notifications.append(notification);
        self.notifications.append("\n");
    }

    /// The text exported to the clipboard: the texts of the current
    /// segments joined with single spaces.
    pub fn clipboard_text(&self) -> (r: String)
        ensures
            r@ == joined(self.segments()),
    {
        let mut out = String::new();
        let n = self.text.len();
        let mut i: usize = 0;
        while i < n
            invariant
                n == self.text@.len(),
                i <= n,
                out@ == joined(self.text@.take(i as int)),
            decreases n - i,
        {
            assert(self.text@.take(i as int + 1).drop_last() =~= self.text@.take(i as int));
            let ghost before = out@;
            if i > 0 {
                proof {
                    reveal_strlit(" ");
                }
                out.append(" ");
                assert(" "@ =~= seq![' ']);
            }
            out.append(self.text[i].text.as_str());
            proof {
                let next = self.text@.take(i as int + 1);
                assert(next.last() == self.text@[i as int]);
                if i == 0 {
                    assert(next[0] == self.text@[0]);
                    assert(out@ =~= joined(next));
                } else {
                    assert(before == joined(next.drop_last()));
                    assert(out@ =~= joined(next.drop_last()) + seq![' '] + next.last().text@);
                }
            }
            i = i + 1;
        }
        assert(self.text@.take(n as int) =~= self.text@);
        out
    }

    /// Whether a segment is shown as new rather than confirmed against the
    /// current boundary.
    pub fn is_new(&self, segment: &Text) -> (r: bool)
        ensures
            r == !confirmed(*segment, self.boundary()),
    {
        let b = self.last;
        !(segment.stop <= b || (segment.stop > b && segment.start < b))
    }

    /// Advances the progress indicator while recording.
    pub fn update_loader(&mut self)
        requires
            old(self).wf(),
        ensures
            final(self).wf(),
            final(self).loader() == if old(self).running() {
                (old(self).loader() + 1) % 4
            } else {
                old(self).loader()
            },
            final(self).boundary() == old(self).boundary(),
            final(self).segments() == old(self).segments(),
            final(self).notifications() == old(self).notifications(),
            final(self).running() == old(self).running(),
    {
        if self.running {
            self.loader = (self.loader + 1) % 4;
        }
    }

    pub fn reset_loader(&mut self)
        ensures
            final(self).wf(),
            final(self).loader() == 0,
            final(self).boundary() == old(self).boundary(),
            final(self).segments() == old(self).segments(),
            final(self).notifications() == old(self).notifications(),
            final(self).running() == old(self).running(),
    {
        self.loader = 0;
    }

    /// The progress indicator: as many dots as the loader step.
    pub fn get_loader_text(&self) -> (r: &'static str)
        requires
            self.wf(),
        ensures
            r@ == loader_dots(self.loader()),
    {
        proof {
            reveal_strlit("");
            reveal_strlit(".");
            reveal_strlit("..");
            reveal_strlit("...");
        }
        if self.loader == 0 {
            ""
        } else if self.loader == 1 {
            "."
        } else if self.loader == 2 {
            ".."
        } else {
            "..."
        }
    }

    /// Starts or stops dictation. When idle, starts `hearer` and marks the
    /// session running. When running, stops `hearer` with `transcribe` as its
    /// callback and applies the outcome: on success both the session and the
    /// hearer stop; a failed stop or transcription is returned and leaves both
    /// as they were, so the stop can be tried again.
    pub fn toggle<F>(&mut self, hearer: &mut Hearer, transcribe: F) -> (r: Result<(), Error>)
        where
            F: Fn(&[u32], Timestamp) -> Result<Vec<Text>, Error>,
        requires
            forall|s: &[u32], t: Timestamp| transcribe.requires((s, t)),
        ensures
            final(hearer).samples() == old(hearer).samples(),
            !old(self).running() ==> {
                &&& r is Ok
                &&& final(hearer).state() is Recording
                &&& final(hearer).state()->started_at.wf()
                &&& final(self).running()
                &&& final(self).boundary() == old(self).boundary()
                &&& final(self).segments() == old(self).segments()
                &&& final(self).notifications() == old(self).notifications()
                &&& final(self).loader() == old(self).loader()
            },
            old(self).running() ==> match stop_outcome(old(hearer).state()) {
                Err(e) => {
                    &&& r == Err::<(), Error>(e)
                    &&& *final(self) == *old(self)
                    &&& *final(hearer) == *old(hearer)
                },
                Ok(t) => {
                    &&& exists|s: &[u32], out: Result<Vec<Text>, Error>|
                        s@ == old(hearer).samples() && transcribe.ensures((s, t), out)
                            && stop_applied(*old(self), *final(self), out, r)
                    &&& r is Ok ==> final(hearer).state() == State::Stopped
                    &&& r is Err ==> final(hearer).state() == old(hearer).state()
                },
            },
    {
        if self.running {
            let out = hearer.stop(transcribe);
            match out {
                Ok(segments) => {
                    self.add_text(segments);
                    self.running = false;
                    self.loader = 0;
                    Ok(())
                },
                Err(e) => Err(e),
            }
        } else {
            hearer.start();
            self.running = true;
            Ok(())
        }
    }

    pub fn boundary_value(&self) -> (r: i64)
        ensures
            r as int == self.boundary(),
    {
        self.last
    }

    pub fn segments_view(&self) -> (r: &[Text])
        ensures
            r@ == self.segments(),
    {
        self.text.as_slice()
    }

    pub fn notifications_text(&self) -> (r: &str)
        ensures
            r@ == self.notifications(),
    {
        self.notifications.as_str()
    }

    pub fn is_running(&self) -> (r: bool)
        ensures
            r == self.running(),
    {
        self.running
    }
}

/// Over two successive successful stops the boundary does not move back, as
/// long as the later transcription ends no earlier than the one it replaces.
pub proof fn lemma_boundary_monotone(
    a0: App,
    a1: App,
    a2: App,
    first: Vec<Text>,
    second: Vec<Text>,
    r1: Result<(), Error>,
    r2: Result<(), Error>,
)
    requires
        stop_applied(a0, a1, Ok(first), r1),
        stop_applied(a1, a2, Ok(second), r2),
        last_stop(first@) >= last_stop(a0.segments()),
    ensures
        a1.boundary() <= a2.boundary(),
{
}

} // verus!
