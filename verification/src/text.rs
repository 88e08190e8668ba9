//! Text items, the active text queue, and the scroll state machine.

use vstd::prelude::*;
use vstd::string::StrSliceExecFns;

verus! {

/// True for the characters that count as ASCII when estimating text width.
pub open spec fn spec_is_ascii_char(c: char) -> bool {
    c as u32 <= 127
}

/// Number of ASCII characters in a character sequence.
pub open spec fn ascii_count(s: Seq<char>) -> nat
    decreases s.len(),
{
    if s.len() == 0 {
        0
    } else {
        ascii_count(s.drop_last()) + if spec_is_ascii_char(s.last()) {
            1nat
        } else {
            0nat
        }
    }
}

/// Counts the ASCII and the non-ASCII characters of a string, in that order.
/// Text width estimation gives the two classes different widths.
pub fn count_ascii(s: &str) -> (r: (usize, usize))
    ensures
        r.0 == ascii_count(s@),
        r.0 + r.1 == s@.len(),
{
    let n = s.unicode_len();
    let mut ascii: usize = 0;
    let mut other: usize = 0;
    let mut i: usize = 0;
    while i < n
        invariant
            i <= n,
            n == s@.len(),
            ascii == ascii_count(s@.take(i as int)),
            ascii + other == i,
        decreases n - i,
    {
        let c = s.get_char(i);
        proof {
            assert(s@.take(i + 1).drop_last() =~= s@.take(i as int));
            assert(s@.take(i + 1).last() == s@[i as int]);
        }
        if (c as u32) < 128 {
            ascii = ascii + 1;
        } else {
            other = other + 1;
        }
        i = i + 1;
    }
    proof {
        assert(s@.take(n as int) =~= s@);
    }
    (ascii, other)
}

/// One entry of a bulletin: its text and its display duration.
/// `duration == 0` means a static item; `duration >= 1000` means an
/// endlessly looping scroll; anything in between is a one-shot scroll.
pub struct TextSource {
    pub content: String,
    pub duration: u64,
}

impl Clone for TextSource {
    fn clone(&self) -> (r: Self)
        ensures
            r == *self,
    {
        TextSource { content: self.content.clone(), duration: self.duration }
    }
}

/// A deep copy of a run of text items, used when a preset's items are
/// swapped into the active queue while the catalog keeps its own.
pub fn clone_texts(v: &Vec<TextSource>) -> (r: Vec<TextSource>)
    ensures
        r@ == v@,
{
    let n = v.len();
    let mut r: Vec<TextSource> = Vec::new();
    let mut i: usize = 0;
    while i < n
        invariant
            i <= n,
            n == v@.len(),
            r@.len() == i,
            forall|k: int| 0 <= k < i ==> r@[k] == v@[k],
        decreases n - i,
    {
        r.push(v[i].clone());
        i = i + 1;
    }
    proof {
        assert(r@ =~= v@);
    }
    r
}

/// Duration threshold at and above which an item loops endlessly.
pub const LOOP_DURATION: u64 = 1000;

/// The scroll state machine: a one-shot scroll runs until its text has
/// fully left the viewport, a looping scroll wraps around indefinitely,
/// and a static item leaves the machine idle.
#[derive(Clone, Copy, PartialEq, Eq, Structural, Debug)]
pub enum ScrollState {
    Idle,
    Scrolling,
    Looping,
}

/// The scroll state that displaying an item of the given duration enters.
pub open spec fn spec_scroll_state_for(duration: u64) -> ScrollState {
    if duration == 0 {
        ScrollState::Idle
    } else if duration >= LOOP_DURATION {
        ScrollState::Looping
    } else {
        ScrollState::Scrolling
    }
}

/// Scroll activity of the display, owned by the tick owner.
pub struct ScrollingState {
    pub state: ScrollState,
}

impl ScrollingState {
    /// A fresh display scrolls nothing.
    pub fn new() -> (r: Self)
        ensures
            r.state == ScrollState::Idle,
    {
        ScrollingState { state: ScrollState::Idle }
    }

    /// Whether any scroll motion is in progress.
    pub fn is_active(&self) -> (r: bool)
        ensures
            r == (self.state != ScrollState::Idle),
    {
        match self.state {
            ScrollState::Idle => false,
            ScrollState::Scrolling => true,
            ScrollState::Looping => true,
        }
    }

    /// Entering a newly addressed item: static items show without motion,
    /// long durations loop, the rest scroll once.
    pub fn enter_item(&mut self, duration: u64)
        ensures
            final(self).state == spec_scroll_state_for(duration),
    {
        if duration == 0 {
            self.state = ScrollState::Idle;
        } else if duration >= LOOP_DURATION {
            self.state = ScrollState::Looping;
        } else {
            self.state = ScrollState::Scrolling;
        }
    }

    /// The trailing edge of the text has fully left the viewport.
    /// A one-shot scroll completes; a looping scroll wraps and keeps
    /// going; an idle display stays idle.
    pub fn on_exit_viewport(&mut self)
        ensures
            final(self).state == (if old(self).state == ScrollState::Scrolling {
                ScrollState::Idle
            } else {
                old(self).state
            }),
    {
        if match self.state {
            ScrollState::Scrolling => true,
            _ => false,
        } {
            self.state = ScrollState::Idle;
        }
    }
}

/// The content of `texts[i]`, or the empty sequence when `i` is out of
/// range.  Bulletin responses use this to resolve missing neighbours.
pub open spec fn content_at_or_empty(texts: Seq<TextSource>, i: int) -> Seq<char> {
    if 0 <= i < texts.len() {
        texts[i].content@
    } else {
        Seq::empty()
    }
}

/// The active preset's items, the index of the item on display, and the
/// preset's name.  Owned exclusively by the tick owner.
pub struct TextQueue {
    pub texts: Vec<TextSource>,
    pub current_index: usize,
    pub current_preset: String,
}

impl TextQueue {
    /// A queue is well formed when its index addresses an item, or the
    /// queue holds no items at all.
    pub open spec fn wf(&self) -> bool {
        self.texts@.len() > 0 ==> self.current_index < self.texts@.len()
    }

    /// The item currently on display, if the queue is non-empty.
    pub fn current(&self) -> (r: Option<&TextSource>)
        requires
            self.wf(),
        ensures
            match r {
                Some(item) => self.texts@.len() > 0 && *item == self.texts@[
                    self.current_index as int
                ],
                None => self.texts@.len() == 0,
            },
    {
        if self.texts.len() > 0 {
            Some(&self.texts[self.current_index])
        } else {
            None
        }
    }

    /// Steps to the next item, if one follows; past the last item the
    /// queue is left unchanged.
    pub fn advance(&mut self)
        requires
            old(self).wf(),
        ensures
            final(self).wf(),
            final(self).texts == old(self).texts,
            final(self).current_preset == old(self).current_preset,
            final(self).current_index == (if old(self).current_index + 1 < old(
                self,
            ).texts@.len() {
                old(self).current_index + 1
            } else {
                old(self).current_index as int
            }),
    {
        if self.texts.len() > 0 {
            if self.current_index + 1 < self.texts.len() {
                self.current_index = self.current_index + 1;
            }
        }
    }
}

} // verus!
