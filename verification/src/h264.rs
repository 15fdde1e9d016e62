//! Looking into H.264 byte streams in Annex B form.
use vstd::prelude::*;

verus! {

/// A start code `00 00 01` begins at `p`, and at least two bytes follow it.
pub open spec fn start_code_at(d: Seq<u8>, p: int) -> bool {
    0 <= p && p + 4 < d.len() && d[p] == 0 && d[p + 1] == 0 && d[p + 2] == 1
}

/// The first start code at `from` or later, or the length if there is none.
pub open spec fn next_start(d: Seq<u8>, from: int) -> int
    decreases d.len() - from,
{
    if from < 0 || from + 4 >= d.len() {
        d.len() as int
    } else if start_code_at(d, from) {
        from
    } else {
        next_start(d, from + 1)
    }
}

/// The byte behind a start code names an IDR slice.
pub open spec fn idr_header(b: u8) -> bool {
    b % 32 == 5
}

/// Whether one of the units whose start code lies at `from` or later is an IDR
/// slice. The search for the next start code goes on behind a unit's header byte.
pub open spec fn idr_from(d: Seq<u8>, from: int) -> bool
    decreases d.len() - from,
    via idr_from_decreases
{
    let p = next_start(d, from);
    if p >= d.len() {
        false
    } else {
        idr_header(d[p + 3]) || idr_from(d, p + 4)
    }
}

#[via_fn]
proof fn idr_from_decreases(d: Seq<u8>, from: int) {
    next_start_bounds(d, from);
}

/// `next_start` finds the first start code, if there is one.
pub proof fn next_start_bounds(d: Seq<u8>, from: int)
    ensures
        next_start(d, from) >= d.len() || (from <= next_start(d, from) && start_code_at(
            d,
            next_start(d, from),
        )),
        from >= 0 ==> forall|p: int|
            from <= p < next_start(d, from) ==> !#[trigger] start_code_at(d, p),
    decreases d.len() - from,
{
    if !(from < 0 || from + 4 >= d.len()) && !start_code_at(d, from) {
        next_start_bounds(d, from + 1);
    }
}

/// Whether the stream holds an IDR slice.
pub fn contains_idr_nal(data: &[u8]) -> (r: bool)
    ensures
        r == idr_from(data@, 0),
{
    let mut i: usize = 0;
    while i < data.len() && data.len() - i > 4
        invariant
            i <= data@.len(),
            idr_from(data@, 0) == idr_from(data@, i as int),
        decreases data@.len() - i,
    {
        let start_len: usize = if data[i] == 0 && data[i + 1] == 0 && data[i + 2] == 1 {
            3
        } else if data.len() - i > 5 && data[i] == 0 && data[i + 1] == 0 && data[i + 2] == 0
            && data[i + 3] == 1 {
            proof {
                assert(next_start(data@, i as int) == next_start(data@, i + 1));
                assert(start_code_at(data@, i + 1));
            }
            4
        } else {
            assert(next_start(data@, i as int) == next_start(data@, i + 1));
            i += 1;
            continue ;
        };
        let header: u8 = data[i + start_len];
        let kind: u8 = header & 0x1f;
        assert(kind == header % 32) by (bit_vector)
            requires
                kind == header & 0x1f,
        ;
        assert(next_start(data@, i as int) == i + start_len - 3);
        if kind == 5 {
            return true;
        }
        i = i + start_len + 1;
    }
    assert(next_start(data@, i as int) >= data@.len());
    false
}

proof fn idr_from_sound(d: Seq<u8>, from: int)
    requires
        idr_from(d, from),
    ensures
        exists|p: int| #[trigger] start_code_at(d, p) && p >= from && idr_header(d[p + 3]),
    decreases d.len() - from,
{
    let p = next_start(d, from);
    next_start_bounds(d, from);
    if idr_header(d[p + 3]) {
        assert(start_code_at(d, p));
    } else {
        idr_from_sound(d, p + 4);
    }
}

proof fn idr_from_complete(d: Seq<u8>, from: int, q: int)
    requires
        0 <= from <= q,
        start_code_at(d, q),
        idr_header(d[q + 3]),
        forall|p: int| #[trigger] start_code_at(d, p) ==> d[p + 3] != 0,
    ensures
        idr_from(d, from),
    decreases d.len() - from,
{
    let p = next_start(d, from);
    next_start_bounds(d, from);
    assert(start_code_at(d, q));
    assert(p <= q);
    assert(start_code_at(d, p));
    if p < q && !idr_header(d[p + 3]) {
        assert(q >= p + 4);
        idr_from_complete(d, p + 4, q);
    }
}

/// In a stream whose units all have a header byte other than zero, an IDR slice
/// is reported exactly if some start code with two bytes behind it is followed
/// by the header of one.
pub proof fn idr_is_found_exactly(d: Seq<u8>)
    requires
        forall|p: int| #[trigger] start_code_at(d, p) ==> d[p + 3] != 0,
    ensures
        idr_from(d, 0) <==> exists|p: int| #[trigger] start_code_at(d, p) && idr_header(d[p + 3]),
{
    if idr_from(d, 0) {
        idr_from_sound(d, 0);
    }
    if exists|p: int| #[trigger] start_code_at(d, p) && idr_header(d[p + 3]) {
        let q = choose|p: int| #[trigger] start_code_at(d, p) && idr_header(d[p + 3]);
        idr_from_complete(d, 0, q);
    }
}

} // verus!
