use vstd::prelude::*;

verus! {

/// Panel width in pixels, in portrait orientation.
pub const WIDTH: u16 = 320;
/// Panel height in pixels, in portrait orientation.
pub const HEIGHT: u16 = 480;

/// Orientation of the panel.
#[derive(Debug, Clone, Copy, PartialEq, Eq, Structural)]
pub enum Orientation {
    Portrait,
    ReversePortrait,
    Landscape,
    ReverseLandscape,
}

impl Orientation {
    pub open spec fn spec_code(self) -> u8 {
        match self {
            Orientation::Portrait => 0,
            Orientation::ReversePortrait => 1,
            Orientation::Landscape => 2,
            Orientation::ReverseLandscape => 3,
        }
    }

    /// The orientation's code on the wire.
    #[verifier::when_used_as_spec(spec_code)]
    pub fn code(self) -> (r: u8)
        ensures
            r == self.spec_code(),
    {
        match self {
            Orientation::Portrait => 0,
            Orientation::ReversePortrait => 1,
            Orientation::Landscape => 2,
            Orientation::ReverseLandscape => 3,
        }
    }
}

/// Opcodes understood by the panel firmware.
#[derive(Debug, Clone, Copy, PartialEq, Eq, Structural)]
pub enum ScreenCommand {
    Reset,
    Clear,
    ToBlack,
    ScreenOff,
    ScreenOn,
    SetBrigthness,
    SetOrientation,
    DisplayBitmap,
}

impl ScreenCommand {
    pub open spec fn spec_code(self) -> u8 {
        match self {
            ScreenCommand::Reset => 101,
            ScreenCommand::Clear => 102,
            ScreenCommand::ToBlack => 103,
            ScreenCommand::ScreenOff => 108,
            ScreenCommand::ScreenOn => 109,
            ScreenCommand::SetBrigthness => 110,
            ScreenCommand::SetOrientation => 121,
            ScreenCommand::DisplayBitmap => 197,
        }
    }

    /// The opcode byte on the wire.
    #[verifier::when_used_as_spec(spec_code)]
    pub fn code(self) -> (r: u8)
        ensures
            r == self.spec_code(),
    {
        match self {
            ScreenCommand::Reset => 101,
            ScreenCommand::Clear => 102,
            ScreenCommand::ToBlack => 103,
            ScreenCommand::ScreenOff => 108,
            ScreenCommand::ScreenOn => 109,
            ScreenCommand::SetBrigthness => 110,
            ScreenCommand::SetOrientation => 121,
            ScreenCommand::DisplayBitmap => 197,
        }
    }
}

/// The 6-byte frame addressing the rectangle (x, y)-(ex, ey) with opcode `op`.
/// Coordinates are spread over the bytes ten bits each; higher bits are
/// cut off by the byte truncation.
pub open spec fn region_frame(x: u16, y: u16, ex: u16, ey: u16, op: u8) -> Seq<u8> {
    seq![
        (x >> 2u16) as u8,
        (((x & 3u16) << 6u16) | (y >> 4u16)) as u8,
        (((y & 15u16) << 4u16) | (ex >> 6u16)) as u8,
        (((ex & 63u16) << 2u16) | (ey >> 8u16)) as u8,
        (ey & 255u16) as u8,
        op,
    ]
}

/// The 11-byte frame that sets the panel's orientation.
pub open spec fn orientation_frame(o: Orientation) -> Seq<u8> {
    seq![0u8, 0u8, 0u8, 0u8, 0u8, 121u8, (100 + o.spec_code()) as u8, 3u8, 200u8, 4u8, 0u8]
}

/// Builds the region command frame for the rectangle (x, y)-(ex, ey).
pub fn encode_region_command(x: u16, y: u16, ex: u16, ey: u16, cmd: ScreenCommand) -> (r: [u8; 6])
    ensures
        r@ == region_frame(x, y, ex, ey, cmd.spec_code()),
{
    let r = [
        (x >> 2u16) as u8,
        (((x & 3u16) << 6u16) | (y >> 4u16)) as u8,
        (((y & 15u16) << 4u16) | (ex >> 6u16)) as u8,
        (((ex & 63u16) << 2u16) | (ey >> 8u16)) as u8,
        (ey & 255u16) as u8,
        cmd.code(),
    ];
    assert(r@ =~= region_frame(x, y, ex, ey, cmd.spec_code()));
    r
}

/// Builds the frame that sets the panel's orientation.
pub fn encode_orientation_command(orientation: Orientation) -> (r: [u8; 11])
    ensures
        r@ == orientation_frame(orientation),
{
    let r = [
        0u8,
        0u8,
        0u8,
        0u8,
        0u8,
        ScreenCommand::SetOrientation.code(),
        orientation.code() + 100,
        3u8,
        200u8,
        4u8,
        0u8,
    ];
    assert(r@ =~= orientation_frame(orientation));
    r
}

/// Reads the rectangle and opcode back out of a 6-byte region frame.
pub open spec fn decode_region(f: Seq<u8>) -> (u16, u16, u16, u16, u8)
    recommends
        f.len() == 6,
{
    (
        ((f[0] as u16) << 2u16) | ((f[1] as u16) >> 6u16),
        (((f[1] as u16) & 63u16) << 4u16) | ((f[2] as u16) >> 4u16),
        (((f[2] as u16) & 15u16) << 6u16) | ((f[3] as u16) >> 2u16),
        (((f[3] as u16) & 3u16) << 8u16) | (f[4] as u16),
        f[5],
    )
}

/// Every coordinate below 1024 survives the region frame: decoding the frame
/// gives back the rectangle and the opcode.
pub proof fn lemma_region_frame_round_trip(x: u16, y: u16, ex: u16, ey: u16, op: u8)
    requires
        x < 1024,
        y < 1024,
        ex < 1024,
        ey < 1024,
    ensures
        decode_region(region_frame(x, y, ex, ey, op)) == (x, y, ex, ey, op),
{
    let f = region_frame(x, y, ex, ey, op);
    let b0 = f[0];
    let b1 = f[1];
    let b2 = f[2];
    let b3 = f[3];
    let b4 = f[4];
    assert(((b0 as u16) << 2u16) | ((b1 as u16) >> 6u16) == x) by (bit_vector)
        requires
            b0 == (x >> 2u16) as u8,
            b1 == (((x & 3u16) << 6u16) | (y >> 4u16)) as u8,
            x < 1024,
            y < 1024,
    ;
    assert((((b1 as u16) & 63u16) << 4u16) | ((b2 as u16) >> 4u16) == y) by (bit_vector)
        requires
            b1 == (((x & 3u16) << 6u16) | (y >> 4u16)) as u8,
            b2 == (((y & 15u16) << 4u16) | (ex >> 6u16)) as u8,
            y < 1024,
            ex < 1024,
    ;
    assert((((b2 as u16) & 15u16) << 6u16) | ((b3 as u16) >> 2u16) == ex) by (bit_vector)
        requires
            b2 == (((y & 15u16) << 4u16) | (ex >> 6u16)) as u8,
            b3 == (((ex & 63u16) << 2u16) | (ey >> 8u16)) as u8,
            ex < 1024,
            ey < 1024,
    ;
    assert((((b3 as u16) & 3u16) << 8u16) | (b4 as u16) == ey) by (bit_vector)
        requires
            b3 == (((ex & 63u16) << 2u16) | (ey >> 8u16)) as u8,
            b4 == (ey & 255u16) as u8,
            ex < 1024,
            ey < 1024,
    ;
}

} // verus!
