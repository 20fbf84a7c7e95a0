use vstd::prelude::*;

use crate::bitmap::{PixelBuffer, PixelGrid, size_accepted, is_size_accepted, lemma_encoded_len, lemma_chunk_sizes};
use crate::command::{
    Orientation,
    ScreenCommand,
    region_frame,
    orientation_frame,
    decode_region,
    lemma_region_frame_round_trip,
    encode_region_command,
    encode_orientation_command,
};
use crate::errors::ScreenError;

verus! {

/// Where a transfer stands: the writes it is made of, how many of them the
/// transport has taken, and whether one of them failed.
pub struct TransferState {
    pub writes: Seq<Seq<u8>>,
    pub sent: nat,
    pub failed: bool,
}

/// A transfer of `writes` before anything was sent.
pub open spec fn start(writes: Seq<Seq<u8>>) -> TransferState {
    TransferState { writes, sent: 0, failed: false }
}

impl TransferState {
    /// The bytes of the next write, if one is due.
    pub open spec fn pending(self) -> Option<Seq<u8>> {
        if !self.failed && self.sent < self.writes.len() {
            Some(self.writes[self.sent as int])
        } else {
            None
        }
    }

    /// The state after the transport reported on the pending write.
    pub open spec fn record(self, ok: bool) -> TransferState {
        if self.pending() is Some {
            if ok {
                TransferState { sent: self.sent + 1, ..self }
            } else {
                TransferState { failed: true, ..self }
            }
        } else {
            self
        }
    }

    /// The result of the operation, once it is decided.
    pub open spec fn outcome(self) -> Option<Result<(), ScreenError>> {
        if self.failed {
            Some(Err(ScreenError::WriteError))
        } else if self.sent >= self.writes.len() {
            Some(Ok(()))
        } else {
            None
        }
    }

    /// Number of writes handed to the transport so far.
    pub open spec fn issued(self) -> nat {
        if self.failed {
            self.sent + 1
        } else {
            self.sent
        }
    }

    /// The state reached when the transport answers the writes, in order,
    /// with `outcomes` (true for a write that succeeded).
    pub open spec fn run(self, outcomes: Seq<bool>) -> TransferState
        decreases outcomes.len(),
    {
        if outcomes.len() == 0 || self.pending() is None {
            self
        } else {
            self.record(outcomes[0]).run(outcomes.drop_first())
        }
    }
}

/// The frame that sets the brightness: the level is inverted and carried in
/// the x field.
pub open spec fn brightness_frame(level: u8) -> Seq<u8> {
    region_frame((255 - level) as u16, 0, 0, 0, ScreenCommand::SetBrigthness.spec_code())
}

/// The writes that draw an image: the region command covering the whole
/// image, then its pixels in chunks of eight rows.
pub open spec fn draw_writes(g: PixelGrid) -> Seq<Seq<u8>> {
    seq![
        region_frame(0, 0, (g.width - 1) as u16, (g.height - 1) as u16, ScreenCommand::DisplayBitmap.spec_code()),
    ] + Seq::new(g.chunk_count(), |k: int| g.chunk_bytes(k))
}

proof fn lemma_run_until_failure(st: TransferState, outcomes: Seq<bool>, j: nat)
    requires
        !st.failed,
        j < outcomes.len(),
        st.sent + j < st.writes.len(),
        forall|i: int| 0 <= i < j ==> outcomes[i],
        !outcomes[j as int],
    ensures
        st.run(outcomes) == (TransferState { writes: st.writes, sent: st.sent + j, failed: true }),
    decreases j,
{
    let next = st.record(outcomes[0]);
    let rest = outcomes.drop_first();
    if j == 0 {
        assert(next.pending() is None);
        assert(next.run(rest) == next);
    } else {
        assert forall|i: int| 0 <= i < j - 1 implies rest[i] by {
            assert(rest[i] == outcomes[i + 1]);
        }
        lemma_run_until_failure(next, rest, (j - 1) as nat);
    }
}

proof fn lemma_run_all_succeed(st: TransferState, outcomes: Seq<bool>)
    requires
        !st.failed,
        st.sent <= st.writes.len(),
        outcomes.len() >= st.writes.len() - st.sent,
        forall|i: int| 0 <= i < outcomes.len() ==> outcomes[i],
    ensures
        st.run(outcomes) == (TransferState { writes: st.writes, sent: st.writes.len(), failed: false }),
    decreases outcomes.len(),
{
    if st.sent < st.writes.len() {
        let rest = outcomes.drop_first();
        assert forall|i: int| 0 <= i < rest.len() implies rest[i] by {
            assert(rest[i] == outcomes[i + 1]);
        }
        lemma_run_all_succeed(st.record(outcomes[0]), rest);
    }
}

/// A transfer whose n-th write fails, the writes before it having gone
/// through, ends there: n writes were issued, none is pending any more, and
/// the result is `WriteError`.
pub proof fn lemma_failed_write_ends_transfer(writes: Seq<Seq<u8>>, outcomes: Seq<bool>, n: nat)
    requires
        1 <= n <= writes.len(),
        n <= outcomes.len(),
        forall|i: int| 0 <= i < n - 1 ==> outcomes[i],
        !outcomes[n - 1],
    ensures
        start(writes).run(outcomes).issued() == n,
        start(writes).run(outcomes).pending() is None,
        start(writes).run(outcomes).outcome() == Some(Err::<(), ScreenError>(ScreenError::WriteError)),
{
    lemma_run_until_failure(start(writes), outcomes, (n - 1) as nat);
}

/// When the transport takes every write, a transfer issues all of its
/// writes, in order, and succeeds.
pub proof fn lemma_transfer_succeeds(writes: Seq<Seq<u8>>, outcomes: Seq<bool>)
    requires
        outcomes.len() >= writes.len(),
        forall|i: int| 0 <= i < outcomes.len() ==> outcomes[i],
    ensures
        start(writes).run(outcomes).issued() == writes.len(),
        start(writes).run(outcomes).pending() is None,
        start(writes).run(outcomes).outcome() == Some(Ok::<(), ScreenError>(())),
{
    lemma_run_all_succeed(start(writes), outcomes);
}

/// Drawing an image takes one region command of six bytes and then
/// `ceil(height / 8)` pixel writes; each of them carries `2 * width * 8`
/// bytes, except the last one, which carries `2 * width * (height % 8)`
/// when the height is not a multiple of eight.
pub proof fn lemma_draw_write_sizes(g: PixelGrid)
    requires
        g.wf(),
        g.width > 0,
        g.height > 0,
    ensures
        draw_writes(g).len() == 1 + (g.height + 7) / 8,
        draw_writes(g)[0].len() == 6,
        forall|k: int|
            1 <= k < draw_writes(g).len() ==> #[trigger] draw_writes(g)[k].len() == if k == draw_writes(
                g,
            ).len() - 1 && g.height % 8 != 0 {
                2 * g.width * (g.height % 8)
            } else {
                2 * g.width * 8
            },
{
    let ws = draw_writes(g);
    assert forall|k: int| 1 <= k < ws.len() implies #[trigger] ws[k].len() == if k == ws.len() - 1
        && g.height % 8 != 0 {
        2 * g.width * (g.height % 8)
    } else {
        2 * g.width * 8
    } by {
        lemma_chunk_sizes(g, k - 1);
        lemma_encoded_len(g, g.chunk_start(k - 1), g.chunk_end(k - 1));
        assert(ws[k] == g.chunk_bytes(k - 1));
        let w = g.width as int;
        let m = (g.height % 8) as int;
        assert(2 * (w * m) == 2 * w * m && 2 * (8 * w) == 2 * w * 8) by (nonlinear_arith);
    }
}

/// The brightness frame carries the inverted level in its x field:
/// level 0 is sent as 255 and level 255 as 0.
pub proof fn lemma_brightness_level_decodes(level: u8)
    ensures
        decode_region(brightness_frame(level)).0 == 255 - level,
        decode_region(brightness_frame(level)).4 == ScreenCommand::SetBrigthness.spec_code(),
{
    lemma_region_frame_round_trip((255 - level) as u16, 0, 0, 0, ScreenCommand::SetBrigthness.spec_code());
}

/// One panel operation as a sequence of writes. The caller hands each
/// pending write to the transport and reports back whether it succeeded;
/// the first failure ends the operation.
pub struct Transfer {
    frame: Vec<u8>,
    image: Option<PixelBuffer>,
    sent: usize,
    failed: bool,
}

impl View for Transfer {
    type V = TransferState;

    closed spec fn view(&self) -> TransferState {
        TransferState {
            writes: seq![self.frame@] + match self.image {
                Some(img) => Seq::new(img@.chunk_count(), |k: int| img@.chunk_bytes(k)),
                None => Seq::empty(),
            },
            sent: self.sent as nat,
            failed: self.failed,
        }
    }
}

fn copy_bytes(v: &[u8]) -> (r: Vec<u8>)
    ensures
        r@ == v@,
{
    let mut r: Vec<u8> = Vec::new();
    let mut i: usize = 0;
    while i < v.len()
        invariant
            i <= v@.len(),
            r@ == v@.subrange(0, i as int),
        decreases v@.len() - i,
    {
        r.push(v[i]);
        i = i + 1;
        assert(r@ =~= v@.subrange(0, i as int));
    }
    assert(r@ =~= v@);
    r
}

impl Transfer {
    #[verifier::type_invariant]
    spec fn inv(&self) -> bool {
        &&& self.sent <= self@.writes.len()
        &&& match self.image {
            Some(img) => img@.width > 0,
            None => true,
        }
    }

    fn single(frame: Vec<u8>) -> (r: Transfer)
        ensures
            r@ == start(seq![frame@]),
    {
        let r = Transfer { frame, image: None, sent: 0, failed: false };
        assert(r@.writes =~= seq![frame@]);
        r
    }

    /// A region command on the rectangle (x, y)-(ex, ey).
    pub fn command(x: u16, y: u16, ex: u16, ey: u16, cmd: ScreenCommand) -> (r: Transfer)
        ensures
            r@ == start(seq![region_frame(x, y, ex, ey, cmd.spec_code())]),
    {
        let f = encode_region_command(x, y, ex, ey, cmd);
        Transfer::single(copy_bytes(f.as_slice()))
    }

    /// Sets the panel's orientation.
    pub fn orientation(orientation: Orientation) -> (r: Transfer)
        ensures
            r@ == start(seq![orientation_frame(orientation)]),
    {
        let f = encode_orientation_command(orientation);
        Transfer::single(copy_bytes(f.as_slice()))
    }

    /// Clears the panel to white.
    pub fn clear() -> (r: Transfer)
        ensures
            r@ == start(seq![region_frame(0, 0, 0, 0, ScreenCommand::Clear.spec_code())]),
    {
        Transfer::command(0, 0, 0, 0, ScreenCommand::Clear)
    }

    /// Clears the panel to black.
    pub fn to_black() -> (r: Transfer)
        ensures
            r@ == start(seq![region_frame(0, 0, 0, 0, ScreenCommand::ToBlack.spec_code())]),
    {
        Transfer::command(0, 0, 0, 0, ScreenCommand::ToBlack)
    }

    /// Turns the display off, keeping the image.
    pub fn screen_off() -> (r: Transfer)
        ensures
            r@ == start(seq![region_frame(0, 0, 0, 0, ScreenCommand::ScreenOff.spec_code())]),
    {
        Transfer::command(0, 0, 0, 0, ScreenCommand::ScreenOff)
    }

    /// Turns the display back on.
    pub fn screen_on() -> (r: Transfer)
        ensures
            r@ == start(seq![region_frame(0, 0, 0, 0, ScreenCommand::ScreenOn.spec_code())]),
    {
        Transfer::command(0, 0, 0, 0, ScreenCommand::ScreenOn)
    }

    /// Sets the brightness; 0 is the brightest level, 255 the darkest.
    pub fn brightness(level: u8) -> (r: Transfer)
        ensures
            r@ == start(seq![brightness_frame(level)]),
    {
        Transfer::command((255 - level) as u16, 0, 0, 0, ScreenCommand::SetBrigthness)
    }

    /// Draws an image. Fails with `WrongImageSize`, before anything is sent,
    /// when the image fails the size test.
    pub fn draw(img: PixelBuffer) -> (r: Result<Transfer, ScreenError>)
        requires
            size_accepted(img@.width as u32, img@.height as u32) ==> img@.width > 0 && img@.height > 0,
        ensures
            r is Err <==> !size_accepted(img@.width as u32, img@.height as u32),
            r matches Err(e) ==> e == ScreenError::WrongImageSize,
            r matches Ok(t) ==> t@ == start(draw_writes(img@)),
    {
        let width = img.width();
        let height = img.height();
        if !is_size_accepted(width, height) {
            return Err(ScreenError::WrongImageSize);
        }
        let f = encode_region_command(
            0,
            0,
            (width - 1) as u16,
            (height - 1) as u16,
            ScreenCommand::DisplayBitmap,
        );
        let frame = copy_bytes(f.as_slice());
        let ghost g = img@;
        let t = Transfer { frame, image: Some(img), sent: 0, failed: false };
        assert(t@.writes =~= draw_writes(g));
        Ok(t)
    }

    /// The bytes of the next write, or `None` once the operation is decided.
    pub fn next_write(&self) -> (r: Option<Vec<u8>>)
        ensures
            match self@.pending() {
                Some(b) => r matches Some(v) && v@ == b,
                None => r is None,
            },
    {
        proof {
            use_type_invariant(self);
        }
        if self.failed {
            return None;
        }
        if self.sent == 0 {
            return Some(copy_bytes(self.frame.as_slice()));
        }
        match &self.image {
            Some(img) => {
                let n = img.chunk_count();
                if self.sent - 1 < n {
                    Some(img.encode_chunk(self.sent - 1))
                } else {
                    None
                }
            },
            None => None,
        }
    }

    /// Takes the transport's answer on the pending write; does nothing when
    /// no write is pending.
    pub fn record(&mut self, ok: bool)
        ensures
            final(self)@ == old(self)@.record(ok),
    {
        proof {
            use_type_invariant(&*self);
        }
        let due = !self.failed && match &self.image {
            Some(img) => self.sent <= img.chunk_count(),
            None => self.sent == 0,
        };
        if due {
            if ok {
                self.sent = self.sent + 1;
            } else {
                self.failed = true;
            }
        }
    }

    /// The operation's result once it is decided: `Err(WriteError)` after a
    /// failed write, `Ok(())` after the last write succeeded.
    pub fn outcome(&self) -> (r: Option<Result<(), ScreenError>>)
        ensures
            r == self@.outcome(),
    {
        proof {
            use_type_invariant(self);
        }
        if self.failed {
            Some(Err(ScreenError::WriteError))
        } else {
            let total = match &self.image {
                Some(img) => img.chunk_count() + 1,
                None => 1,
            };
            if self.sent >= total {
                Some(Ok(()))
            } else {
                None
            }
        }
    }
}

} // verus!
