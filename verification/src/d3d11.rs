//! What the Direct3D 11 code of the other modules has in common: resource
//! descriptions by their numbers, rings of surfaces, caches of views, thread
//! groups, and copying planes row by row.
use std::collections::HashSet;

use vstd::prelude::*;

verus! {

broadcast use vstd::std_specs::hash::group_hash_axioms;

pub const FORMAT_R32_UINT: u32 = 42;

pub const FORMAT_R32_TYPELESS: u32 = 39;

pub const FORMAT_R8G8B8A8_UNORM: u32 = 28;

pub const FORMAT_R8G8B8A8_UNORM_SRGB: u32 = 29;

pub const FORMAT_R8G8_UNORM: u32 = 49;

pub const FORMAT_R8_UNORM: u32 = 61;

pub const FORMAT_B8G8R8A8_UNORM: u32 = 87;

pub const FORMAT_B8G8R8A8_UNORM_SRGB: u32 = 91;

pub const FORMAT_NV12: u32 = 103;

pub const USAGE_DEFAULT: u32 = 0;

pub const USAGE_IMMUTABLE: u32 = 1;

pub const USAGE_DYNAMIC: u32 = 2;

pub const USAGE_STAGING: u32 = 3;

pub const BIND_CONSTANT_BUFFER: u32 = 0x4;

pub const BIND_SHADER_RESOURCE: u32 = 0x8;

pub const BIND_RENDER_TARGET: u32 = 0x20;

pub const BIND_UNORDERED_ACCESS: u32 = 0x80;

pub const CPU_ACCESS_WRITE: u32 = 0x1_0000;

pub const CPU_ACCESS_READ: u32 = 0x2_0000;

pub const MISC_SHARED: u32 = 0x2;

pub const MISC_BUFFER_ALLOW_RAW_VIEWS: u32 = 0x20;

pub const MISC_SHARED_NTHANDLE: u32 = 0x800;

/// The result code of a call with an invalid argument.
pub const E_INVALIDARG: u32 = 0x8007_0057;

/// A texture with one mip level, one slice and one sample per pixel.
#[derive(Debug, Clone, Copy, PartialEq, Eq, Structural)]
pub struct TextureDesc {
    pub width: u32,
    pub height: u32,
    pub format: u32,
    pub usage: u32,
    pub bind_flags: u32,
    pub cpu_access: u32,
    pub misc_flags: u32,
}

/// A buffer.
#[derive(Debug, Clone, Copy, PartialEq, Eq, Structural)]
pub struct BufferDesc {
    pub byte_width: u32,
    pub usage: u32,
    pub bind_flags: u32,
    pub cpu_access: u32,
    pub misc_flags: u32,
}

/// A texture that lives on the GPU.
pub open spec fn gpu_texture(width: u32, height: u32, format: u32, bind_flags: u32) -> TextureDesc {
    TextureDesc {
        width,
        height,
        format,
        usage: USAGE_DEFAULT,
        bind_flags,
        cpu_access: 0,
        misc_flags: 0,
    }
}

/// A texture through which the CPU reads or writes.
pub open spec fn staging_texture(width: u32, height: u32, format: u32, cpu_access: u32) -> TextureDesc {
    TextureDesc {
        width,
        height,
        format,
        usage: USAGE_STAGING,
        bind_flags: 0,
        cpu_access,
        misc_flags: 0,
    }
}

pub fn make_gpu_texture(width: u32, height: u32, format: u32, bind_flags: u32) -> (r: TextureDesc)
    ensures
        r == gpu_texture(width, height, format, bind_flags),
{
    TextureDesc {
        width,
        height,
        format,
        usage: USAGE_DEFAULT,
        bind_flags,
        cpu_access: 0,
        misc_flags: 0,
    }
}

pub fn make_staging_texture(width: u32, height: u32, format: u32, cpu_access: u32) -> (r:
    TextureDesc)
    ensures
        r == staging_texture(width, height, format, cpu_access),
{
    TextureDesc {
        width,
        height,
        format,
        usage: USAGE_STAGING,
        bind_flags: 0,
        cpu_access,
        misc_flags: 0,
    }
}

/// A constant buffer of 32 bytes that the CPU rewrites.
pub fn create_cb_params() -> (r: BufferDesc)
    ensures
        r == (BufferDesc {
            byte_width: 32,
            usage: USAGE_DYNAMIC,
            bind_flags: BIND_CONSTANT_BUFFER,
            cpu_access: CPU_ACCESS_WRITE,
            misc_flags: 0,
        }),
{
    BufferDesc {
        byte_width: 32,
        usage: USAGE_DYNAMIC,
        bind_flags: BIND_CONSTANT_BUFFER,
        cpu_access: CPU_ACCESS_WRITE,
        misc_flags: 0,
    }
}

/// A rectangle by its edges.
#[derive(Debug, Clone, Copy, PartialEq, Eq, Structural)]
pub struct Rect {
    pub left: i32,
    pub top: i32,
    pub right: i32,
    pub bottom: i32,
}

/// The rectangle from the origin to a size.
pub fn rect_of_size(width: u32, height: u32) -> (r: Rect)
    ensures
        r == (Rect { left: 0, top: 0, right: width as i32, bottom: height as i32 }),
{
    Rect { left: 0, top: 0, right: width as i32, bottom: height as i32 }
}

/// How many groups of `size` threads cover `n` items.
pub open spec fn groups_over(n: int, size: int) -> int {
    (n + size - 1) / size
}

/// How many groups of sixteen threads cover `n` items.
pub fn groups16(n: u32) -> (r: u32)
    requires
        n + 15 <= u32::MAX,
    ensures
        r == groups_over(n as int, 16),
{
    (n + 15) / 16
}

/// How many groups of eight threads cover `n` items.
pub fn groups8(n: u32) -> (r: u32)
    requires
        n + 7 <= u32::MAX,
    ensures
        r == groups_over(n as int, 8),
{
    (n + 7) / 8
}

/// The groups cover every item, and no group is without one.
pub proof fn groups_cover(n: int, size: int)
    requires
        n >= 0,
        size > 0,
    ensures
        groups_over(n, size) * size >= n,
        n > 0 ==> (groups_over(n, size) - 1) * size < n,
{
    let g = groups_over(n, size);
    let m = n + size - 1;
    vstd::arithmetic::div_mod::lemma_fundamental_div_mod(m, size);
    assert(g * size == size * (m / size)) by (nonlinear_arith)
        requires
            g == m / size,
    ;
    assert((g - 1) * size == g * size - size) by (nonlinear_arith);
}

/// A ring of output surfaces that are written in turn.
#[derive(Debug, Clone, Copy, PartialEq, Eq, Structural)]
pub struct OutputRing {
    pub len: u32,
    pub cursor: u32,
    pub last: u32,
}

impl OutputRing {
    /// The number of places; a ring without surfaces counts as one.
    pub open spec fn places(self) -> int {
        if self.len == 0 {
            1
        } else {
            self.len as int
        }
    }

    /// A ring that starts at its first surface.
    pub fn new(len: u32) -> (r: OutputRing)
        ensures
            r == (OutputRing { len, cursor: 0, last: 0 }),
    {
        OutputRing { len, cursor: 0, last: 0 }
    }

    /// The surface to write next. The counter behind it starts again at zero
    /// after its largest value.
    pub fn next_output_index(&mut self) -> (i: usize)
        ensures
            i == old(self).cursor as int % old(self).places(),
            i < old(self).places(),
            final(self).len == old(self).len,
            final(self).last == old(self).last,
            final(self).cursor == (old(self).cursor + 1) % 0x1_0000_0000,
    {
        let len: u32 = if self.len == 0 {
            1
        } else {
            self.len
        };
        let i: u32 = self.cursor % len;
        self.cursor = self.cursor.wrapping_add(1);
        i as usize
    }

    /// Notes that a surface was written.
    pub fn note_written(&mut self, i: usize)
        requires
            i < old(self).places(),
        ensures
            *final(self) == (OutputRing { last: i as u32, ..*old(self) }),
    {
        self.last = i as u32;
    }

    /// The surface that was written last.
    pub fn last_output_index(&self) -> (i: usize)
        ensures
            i == if self.last < self.places() {
                self.last as int
            } else {
                self.places() - 1
            },
            i < self.places(),
    {
        let len: u32 = if self.len == 0 {
            1
        } else {
            self.len
        };
        if self.last < len - 1 {
            self.last as usize
        } else {
            (len - 1) as usize
        }
    }
}

/// The surfaces that a ring hands out follow one another round it, as long as
/// its counter has not started again at zero.
pub proof fn ring_goes_round(cursor: int, places: int)
    requires
        places > 0,
        cursor >= 0,
    ensures
        (cursor + 1) % places == if cursor % places + 1 == places {
            0
        } else {
            cursor % places + 1
        },
        (cursor + places) % places == cursor % places,
{
    let q = cursor / places;
    let r = cursor % places;
    vstd::arithmetic::div_mod::lemma_fundamental_div_mod(cursor, places);
    if r + 1 == places {
        assert(cursor + 1 == places * (q + 1) + 0) by (nonlinear_arith)
            requires
                cursor == places * q + r,
                r + 1 == places,
        ;
        vstd::arithmetic::div_mod::lemma_fundamental_div_mod_converse(cursor + 1, places, q + 1, 0);
    } else {
        vstd::arithmetic::div_mod::lemma_fundamental_div_mod_converse(cursor + 1, places, q, r + 1);
    }
    assert(cursor + places == places * (q + 1) + r) by (nonlinear_arith)
        requires
            cursor == places * q + r,
    ;
    vstd::arithmetic::div_mod::lemma_fundamental_div_mod_converse(cursor + places, places, q + 1, r);
}

/// The views that were made, by the address of their texture.
#[derive(Debug)]
pub struct ViewCache {
    pub keys: HashSet<usize>,
}

impl ViewCache {
    /// No views yet.
    pub fn new() -> (r: ViewCache)
        ensures
            r.keys@ == Set::<usize>::empty(),
    {
        ViewCache { keys: HashSet::new() }
    }

    /// Whether there is a view of the texture.
    pub fn contains(&self, key: usize) -> (r: bool)
        ensures
            r == self.keys@.contains(key),
    {
        self.keys.contains(&key)
    }

    /// Notes a view that was made.
    pub fn note_created(&mut self, key: usize)
        ensures
            final(self).keys@ == old(self).keys@.insert(key),
    {
        self.keys.insert(key);
    }

    /// Forgets every view.
    pub fn clear(&mut self)
        ensures
            final(self).keys@ == Set::<usize>::empty(),
    {
        self.keys.clear();
    }
}

/// The byte `k` of row `r` of a plane.
pub open spec fn at(plane: Seq<u8>, offset: int, pitch: int, r: int, k: int) -> u8 {
    plane[offset + r * pitch + k]
}

/// Whether the index lies in one of the first `rows` rows of a plane.
pub open spec fn in_rows(i: int, offset: int, pitch: int, rows: int, row_len: int) -> bool {
    exists|r: int, k: int|
        0 <= r < rows && 0 <= k < row_len && i == #[trigger] (offset + r * pitch + k)
}

/// `after` is `before` with rows of `src` written into a plane at `offset`.
pub open spec fn rows_copied(
    before: Seq<u8>,
    after: Seq<u8>,
    offset: int,
    pitch: int,
    src: Seq<u8>,
    src_pitch: int,
    rows: int,
    row_len: int,
) -> bool {
    &&& after.len() == before.len()
    &&& forall|r: int, k: int|
        0 <= r < rows && 0 <= k < row_len ==> #[trigger] at(after, offset, pitch, r, k) == at(
            src,
            0,
            src_pitch,
            r,
            k,
        )
    &&& forall|i: int|
        0 <= i < before.len() && !in_rows(i, offset, pitch, rows, row_len) ==> #[trigger] after[i]
            == before[i]
}

/// Rows of `row_len` bytes, `pitch` apart, fit into `len` bytes at `offset`.
pub open spec fn plane_fits(len: int, offset: int, pitch: int, rows: int, row_len: int) -> bool {
    rows > 0 ==> offset + (rows - 1) * pitch + row_len <= len
}

/// Copies one row: `n` bytes from `s` in `src` to `d` in `dst`.
fn copy_row(dst: &mut Vec<u8>, d: usize, src: &[u8], s: usize, n: usize)
    requires
        d + n <= old(dst)@.len(),
        s + n <= src@.len(),
    ensures
        final(dst)@.len() == old(dst)@.len(),
        forall|k: int| 0 <= k < n ==> #[trigger] final(dst)@[d + k] == src@[s + k],
        forall|i: int|
            0 <= i < old(dst)@.len() && !(d <= i < d + n) ==> #[trigger] final(dst)@[i] == old(
                dst,
            )@[i],
{
    let ghost before = dst@;
    let mut k: usize = 0;
    while k < n
        invariant
            k <= n,
            d + n <= dst.len(),
            s + n <= src.len(),
            dst@.len() == before.len(),
            forall|j: int| 0 <= j < k ==> #[trigger] dst@[d + j] == src@[s + j],
            forall|i: int|
                0 <= i < before.len() && !(d <= i < d + k) ==> #[trigger] dst@[i] == before[i],
        decreases n - k,
    {
        dst[d + k] = src[s + k];
        k += 1;
    }
}

/// Copies `rows` rows of `row_len` bytes into a plane that begins at `offset`.
pub fn copy_plane(
    dst: &mut Vec<u8>,
    offset: usize,
    pitch: usize,
    src: &[u8],
    src_pitch: usize,
    rows: usize,
    row_len: usize,
)
    requires
        row_len <= pitch,
        plane_fits(old(dst)@.len() as int, offset as int, pitch as int, rows as int, row_len as int),
        plane_fits(src@.len() as int, 0, src_pitch as int, rows as int, row_len as int),
    ensures
        rows_copied(
            old(dst)@,
            final(dst)@,
            offset as int,
            pitch as int,
            src@,
            src_pitch as int,
            rows as int,
            row_len as int,
        ),
{
    let ghost before = dst@;
    let mut r: usize = 0;
    while r < rows
        invariant
            r <= rows,
            row_len <= pitch,
            dst@.len() == before.len(),
            plane_fits(
                dst.len() as int,
                offset as int,
                pitch as int,
                rows as int,
                row_len as int,
            ),
            plane_fits(src.len() as int, 0, src_pitch as int, rows as int, row_len as int),
            rows_copied(
                before,
                dst@,
                offset as int,
                pitch as int,
                src@,
                src_pitch as int,
                r as int,
                row_len as int,
            ),
        decreases rows - r,
    {
        let ghost mid = dst@;
        proof {
            let (p, q, rr, top) = (pitch as int, src_pitch as int, r as int, rows - 1);
            assert(rr * p <= top * p && 0 <= rr * p) by (nonlinear_arith)
                requires
                    0 <= rr <= top,
                    0 <= p,
            ;
            assert(rr * q <= top * q && 0 <= rr * q) by (nonlinear_arith)
                requires
                    0 <= rr <= top,
                    0 <= q,
            ;
        }
        let d: usize = offset + r * pitch;
        let s: usize = r * src_pitch;
        copy_row(dst, d, src, s, row_len);
        proof {
            let (p, q) = (pitch as int, src_pitch as int);
            let o = offset as int;
            assert forall|a: int, k: int|
                0 <= a < r + 1 && 0 <= k < row_len implies #[trigger] at(dst@, o, p, a, k) == at(
                src@,
                0,
                q,
                a,
                k,
            ) by {
                if a < r {
                    assert(at(mid, o, p, a, k) == at(src@, 0, q, a, k));
                    assert(a * p + k < r * p) by (nonlinear_arith)
                        requires
                            0 <= a < r,
                            0 <= k < row_len,
                            row_len <= p,
                    ;
                    assert(0 <= a * p) by (nonlinear_arith)
                        requires
                            0 <= a,
                            0 <= p,
                    ;
                    assert(dst@[o + a * p + k] == mid[o + a * p + k]);
                } else {
                    assert(dst@[d + k] == src@[s + k]);
                }
            }
            assert forall|i: int|
                0 <= i < before.len() && !in_rows(
                    i,
                    o,
                    p,
                    r + 1,
                    row_len as int,
                ) implies #[trigger] dst@[i] == before[i] by {
                if in_rows(i, o, p, r as int, row_len as int) {
                    let (a, k) = choose|a: int, k: int|
                        0 <= a < r && 0 <= k < row_len && i == #[trigger] (o + a * p + k);
                    assert(0 <= a < r + 1);
                    assert(in_rows(i, o, p, r + 1, row_len as int));
                }
                if d <= i < d + row_len {
                    let k = i - d;
                    assert(i == o + r * p + k);
                    assert(in_rows(i, o, p, r + 1, row_len as int));
                }
                assert(mid[i] == before[i]);
            }
        }
        r += 1;
    }
}

} // verus!
