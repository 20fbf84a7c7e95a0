use vstd::prelude::*;
use vstd::string::StringExecFns;

verus! {

/// Serial number the panel reports over USB.
pub const SCREEN_SERIAL: &'static str = "USB35INCHIPSV2";

/// A serial port as seen when looking for the panel: its name, and the
/// serial number of the USB device behind it (`None` for a port that is not
/// USB or a device that reports none).
pub struct PortCandidate {
    pub name: String,
    pub usb_serial: Option<String>,
}

/// Whether a port leads to the panel.
pub open spec fn is_screen(c: PortCandidate) -> bool {
    c.usb_serial matches Some(s) && s@ == SCREEN_SERIAL@
}

/// Name of the last port in `ports` that leads to the panel, or the empty
/// name when none does.
pub open spec fn screen_port(ports: Seq<PortCandidate>) -> Seq<char>
    decreases ports.len(),
{
    if ports.len() == 0 {
        Seq::empty()
    } else if is_screen(ports.last()) {
        ports.last().name@
    } else {
        screen_port(ports.drop_last())
    }
}

/// Picks the port that the panel is attached to; the empty string when none
/// of `ports` is.
pub fn find_screen_port(ports: &Vec<PortCandidate>) -> (r: String)
    ensures
        r@ == screen_port(ports@),
{
    let serial = <String as StringExecFns>::from_str(SCREEN_SERIAL);
    let mut found = String::new();
    let mut i: usize = 0;
    while i < ports.len()
        invariant
            i <= ports@.len(),
            serial@ == SCREEN_SERIAL@,
            found@ == screen_port(ports@.subrange(0, i as int)),
        decreases ports@.len() - i,
    {
        let matched = match &ports[i].usb_serial {
            Some(s) => *s == serial,
            None => false,
        };
        if matched {
            found = ports[i].name.clone();
        }
        proof {
            let pre = ports@.subrange(0, i + 1);
            assert(pre.drop_last() =~= ports@.subrange(0, i as int));
            assert(pre.last() == ports@[i as int]);
        }
        i = i + 1;
    }
    assert(ports@.subrange(0, ports@.len() as int) =~= ports@);
    found
}

} // verus!
