//! The scan loop's state: duplicate suppression.
//!
//! A recognized code is emitted only when it differs from the last emitted
//! code; the same code recognized across consecutive frames is emitted once.
//! A frame without a code never resets the state: only a different, present
//! code re-arms emission. The loop around frame acquisition hands each
//! frame's bytes to [`ScanState::process_frame`] and forwards what it emits.
use crate::ScanResult;
use crate::decoder;
use crate::CodeType;
use vstd::prelude::*;

verus! {

/// Whether a frame yielding `seen` emits an event, given the last emitted
/// code: only a present code that differs from the last emitted one does.
pub open spec fn step_emits(last: Option<Seq<char>>, seen: Option<Seq<char>>) -> bool {
    match seen {
        Some(code) => last != Some(code),
        None => false,
    }
}

/// The suppression state after one frame: it moves to the seen code exactly
/// on emission, and absence of a code never resets it.
pub open spec fn step_last(last: Option<Seq<char>>, seen: Option<Seq<char>>) -> Option<Seq<char>> {
    if step_emits(last, seen) {
        seen
    } else {
        last
    }
}

/// The codes emitted over a sequence of frame outcomes, starting from the
/// given suppression state.
pub open spec fn emissions_from(last: Option<Seq<char>>, seen: Seq<Option<Seq<char>>>) -> Seq<
    Seq<char>,
>
    decreases seen.len(),
{
    if seen.len() == 0 {
        Seq::empty()
    } else {
        let head = if step_emits(last, seen[0]) {
            seq![seen[0].unwrap()]
        } else {
            Seq::empty()
        };
        head + emissions_from(step_last(last, seen[0]), seen.skip(1))
    }
}

/// The codes emitted over a sequence of frame outcomes by a fresh scan loop,
/// whose suppression state starts empty.
pub open spec fn emissions(seen: Seq<Option<Seq<char>>>) -> Seq<Seq<char>> {
    emissions_from(None, seen)
}

/// The code carried by an optional recognition.
pub open spec fn code_of(obs: Option<ScanResult>) -> Option<Seq<char>> {
    match obs {
        Some(res) => Some(res.code@),
        None => None,
    }
}

/// What recognition yields on one raw frame: the frame is normalized to
/// grayscale, and recognition is attempted only when that image is
/// well-formed — a torn frame, like a decode fault, counts as no code.
pub open spec fn frame_recognition(data: Seq<u8>, width: int, height: int) -> Option<
    (Seq<char>, CodeType),
> {
    let gray = decoder::gray_spec(data, width, height);
    if decoder::image_well_formed(gray, width, height) {
        decoder::recognition_spec(gray, width, height)
    } else {
        None
    }
}

/// The code, if any, that one raw frame yields.
pub open spec fn frame_code(data: Seq<u8>, width: int, height: int) -> Option<Seq<char>> {
    match frame_recognition(data, width, height) {
        Some((code, kind)) => Some(code),
        None => None,
    }
}

/// The scan loop's only state: the last emitted code, empty at start.
pub struct ScanState {
    last: Option<String>,
}

impl ScanState {
    /// The last emitted code, as a character sequence.
    pub closed spec fn last_code(&self) -> Option<Seq<char>> {
        match self.last {
            Some(code) => Some(code@),
            None => None,
        }
    }

    /// A fresh scan loop state: nothing emitted yet.
    pub fn new() -> (r: Self)
        ensures
            r.last_code() is None,
    {
        ScanState { last: None }
    }

    /// Apply duplicate suppression to one frame's recognition outcome:
    /// return the event to emit, if any, and update the suppression state.
    pub fn observe(&mut self, obs: Option<ScanResult>) -> (r: Option<ScanResult>)
        ensures
            final(self).last_code() == step_last(old(self).last_code(), code_of(obs)),
            step_emits(old(self).last_code(), code_of(obs)) ==> r == obs,
            !step_emits(old(self).last_code(), code_of(obs)) ==> r is None,
    {
        match obs {
            None => None,
            Some(result) => {
                let is_new = match &self.last {
                    None => true,
                    Some(prev) => !(*prev == result.code),
                };
                if is_new {
                    self.last = Some(result.code.clone());
                    Some(result)
                } else {
                    None
                }
            },
        }
    }

    /// One scan loop iteration after frame acquisition: normalize the raw
    /// frame, attempt recognition, and apply duplicate suppression. A torn
    /// frame or a decode fault counts as no code and is never fatal.
    pub fn process_frame(&mut self, data: &[u8], width: u32, height: u32) -> (r: Option<ScanResult>)
        ensures
            final(self).last_code() == step_last(
                old(self).last_code(),
                frame_code(data@, width as int, height as int),
            ),
            match r {
                Some(res) => step_emits(
                    old(self).last_code(),
                    frame_code(data@, width as int, height as int),
                ) && frame_recognition(data@, width as int, height as int) == Some(
                    (res.code@, res.code_type),
                ),
                None => !step_emits(
                    old(self).last_code(),
                    frame_code(data@, width as int, height as int),
                ),
            },
    {
        let gray = decoder::yuyv_to_gray(data, width, height);
        match decoder::decode_image(gray.as_slice(), width, height) {
            Ok(found) => self.observe(found),
            Err(_) => self.observe(None),
        }
    }
}

/// The bounded scan loop's state: duplicate suppression plus a count of
/// emissions still owed. The loop around it stops once that count reaches
/// zero.
pub struct BoundedScanState {
    state: ScanState,
    remaining: usize,
}

impl BoundedScanState {
    /// The last emitted code, as a character sequence.
    pub closed spec fn last_code(&self) -> Option<Seq<char>> {
        self.state.last_code()
    }

    /// How many further emissions the loop still owes before it stops.
    pub closed spec fn remaining_spec(&self) -> nat {
        self.remaining as nat
    }

    /// A bounded scan loop that stops after `n` distinct emissions.
    pub fn new(n: usize) -> (r: Self)
        ensures
            r.last_code() is None,
            r.remaining_spec() == n,
    {
        BoundedScanState { state: ScanState::new(), remaining: n }
    }

    /// Whether the loop is done: the owed emissions have all happened.
    pub fn finished(&self) -> (r: bool)
        ensures
            r == (self.remaining_spec() == 0),
    {
        self.remaining == 0
    }

    /// Apply duplicate suppression to one recognition outcome, exactly as
    /// the unbounded loop does, and let each emission pay off one owed
    /// emission.
    pub fn observe(&mut self, obs: Option<ScanResult>) -> (r: Option<ScanResult>)
        requires
            old(self).remaining_spec() >= 1,
        ensures
            final(self).last_code() == step_last(old(self).last_code(), code_of(obs)),
            match r {
                Some(res) => step_emits(old(self).last_code(), code_of(obs)) && obs == Some(res)
                    && final(self).remaining_spec() == old(self).remaining_spec() - 1,
                None => !step_emits(old(self).last_code(), code_of(obs))
                    && final(self).remaining_spec() == old(self).remaining_spec(),
            },
    {
        let r = self.state.observe(obs);
        if r.is_some() {
            self.remaining = self.remaining - 1;
        }
        r
    }

    /// One bounded loop iteration after frame acquisition: exactly as the
    /// unbounded loop's, and each emission pays off one owed emission.
    pub fn process_frame(&mut self, data: &[u8], width: u32, height: u32) -> (r: Option<
        ScanResult,
    >)
        requires
            old(self).remaining_spec() >= 1,
        ensures
            final(self).last_code() == step_last(
                old(self).last_code(),
                frame_code(data@, width as int, height as int),
            ),
            match r {
                Some(res) => step_emits(
                    old(self).last_code(),
                    frame_code(data@, width as int, height as int),
                ) && frame_recognition(data@, width as int, height as int) == Some(
                    (res.code@, res.code_type),
                ) && final(self).remaining_spec() == old(self).remaining_spec() - 1,
                None => !step_emits(
                    old(self).last_code(),
                    frame_code(data@, width as int, height as int),
                ) && final(self).remaining_spec() == old(self).remaining_spec(),
            },
    {
        let r = self.state.process_frame(data, width, height);
        if r.is_some() {
            self.remaining = self.remaining - 1;
        }
        r
    }
}

/// With the suppression state already holding `code`, a run of frames all
/// yielding `code` emits nothing.
proof fn lemma_run_suppressed(code: Seq<char>, n: nat)
    ensures
        emissions_from(Some(code), Seq::new(n, |i: int| Some(code))) =~= Seq::<Seq<char>>::empty(),
    decreases n,
{
    let frames = Seq::new(n, |i: int| Some(code));
    if n > 0 {
        assert(frames.skip(1) =~= Seq::new((n - 1) as nat, |i: int| Some(code)));
        lemma_run_suppressed(code, (n - 1) as nat);
    }
}

/// Idempotence of suppression: a maximal run of frames all yielding the same
/// code emits that code exactly once, whatever the run's length, from any
/// suppression state not already holding that code.
pub proof fn lemma_suppression_idempotent(last: Option<Seq<char>>, code: Seq<char>, n: nat)
    requires
        n >= 1,
        last != Some(code),
    ensures
        emissions_from(last, Seq::new(n, |i: int| Some(code))) =~= seq![code],
{
    let frames = Seq::new(n, |i: int| Some(code));
    assert(step_emits(last, frames[0]));
    assert(frames.skip(1) =~= Seq::new((n - 1) as nat, |i: int| Some(code)));
    lemma_run_suppressed(code, (n - 1) as nat);
}

/// No emission on absence: frames yielding no code emit nothing, from any
/// suppression state.
pub proof fn lemma_no_code_no_emission(last: Option<Seq<char>>, seen: Seq<Option<Seq<char>>>)
    requires
        forall|i: int| 0 <= i < seen.len() ==> seen[i] is None,
    ensures
        emissions_from(last, seen) =~= Seq::<Seq<char>>::empty(),
    decreases seen.len(),
{
    if seen.len() > 0 {
        lemma_no_code_no_emission(last, seen.skip(1));
    }
}

/// Re-emission after change: frames yielding `c1, c1, c2, c1` emit exactly
/// `c1, c2, c1` — a code seen again after an intervening different code is
/// emitted again.
pub proof fn lemma_reemission_after_change(c1: Seq<char>, c2: Seq<char>)
    requires
        c1 != c2,
    ensures
        emissions(seq![Some(c1), Some(c1), Some(c2), Some(c1)]) =~= seq![c1, c2, c1],
{
    let s0 = seq![Some(c1), Some(c1), Some(c2), Some(c1)];
    let s1 = seq![Some(c1), Some(c2), Some(c1)];
    let s2 = seq![Some(c2), Some(c1)];
    let s3 = seq![Some(c1)];
    let s4 = Seq::<Option<Seq<char>>>::empty();
    assert(s0.skip(1) =~= s1);
    assert(s1.skip(1) =~= s2);
    assert(s2.skip(1) =~= s3);
    assert(s3.skip(1) =~= s4);
    assert(emissions_from(Some(c1), s4) =~= Seq::<Seq<char>>::empty());
    assert(emissions_from(Some(c2), s3) =~= seq![c1]);
    assert(emissions_from(Some(c1), s2) =~= seq![c2, c1]);
    assert(emissions_from(Some(c1), s1) =~= seq![c2, c1]);
    assert(emissions_from(None, s0) =~= seq![c1, c2, c1]);
}

} // verus!
