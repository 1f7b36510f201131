use vstd::prelude::*;

verus! {

/// The unsigned integer that four bytes encode, most significant first.
pub open spec fn be_u32(b0: u8, b1: u8, b2: u8, b3: u8) -> int {
    b0 as int * 0x1000000 + b1 as int * 0x10000 + b2 as int * 0x100 + b3 as int
}

/// Decodes the tray icon's dimensions record: width then height, each four
/// bytes, most significant first. `None` unless the record is exactly eight
/// bytes long.
pub fn icon_dimensions(raw: &[u8]) -> (r: Option<(u32, u32)>)
    ensures
        r is Some <==> raw@.len() == 8,
        r matches Some((w, h)) ==> {
            &&& w as int == be_u32(raw@[0], raw@[1], raw@[2], raw@[3])
            &&& h as int == be_u32(raw@[4], raw@[5], raw@[6], raw@[7])
        },
{
    if raw.len() != 8 {
        return None;
    }
    let w = read_be_u32(raw[0], raw[1], raw[2], raw[3]);
    let h = read_be_u32(raw[4], raw[5], raw[6], raw[7]);
    Some((w, h))
}

fn read_be_u32(b0: u8, b1: u8, b2: u8, b3: u8) -> (r: u32)
    ensures
        r as int == be_u32(b0, b1, b2, b3),
{
    (b0 as u32) * 0x1000000 + (b1 as u32) * 0x10000 + (b2 as u32) * 0x100 + (b3 as u32)
}

} // verus!
