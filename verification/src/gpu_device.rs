//! Which graphics adapter is used.
use vstd::prelude::*;

use crate::text;

verus! {

/// Above so much memory of its own an adapter counts as discrete.
pub const DISCRETE_VRAM_THRESHOLD: u64 = 536_870_912;

/// The flag of an adapter that is made of software.
pub const ADAPTER_FLAG_SOFTWARE: u32 = 2;

/// The least feature level that is accepted.
pub const FEATURE_LEVEL_11_0: u32 = 0xb000;

/// What a device is created for: BGRA surfaces, and video processing.
pub const CREATE_DEVICE_FLAGS: u32 = 0x820;

/// Why no device could be had.
#[derive(Debug, Clone, PartialEq, Eq)]
pub enum GpuDeviceError {
    NoAdapter,
    InvalidAdapterIndex(u32, u32),
    DeviceCreation(String),
    FeatureLevelNotSatisfied,
}

/// The text of an error.
pub open spec fn gpu_error_text(e: GpuDeviceError) -> Seq<char> {
    match e {
        GpuDeviceError::NoAdapter => "No suitable GPU adapter found (all SOFTWARE or empty)"@,
        GpuDeviceError::InvalidAdapterIndex(n, max) => "Adapter index "@ + text::decimal(n as nat)
            + " out of range (max "@ + text::decimal(max as nat) + ")"@,
        GpuDeviceError::DeviceCreation(s) => "D3D11 device creation failed: "@ + s@,
        GpuDeviceError::FeatureLevelNotSatisfied => "Feature level 11.0 not satisfied"@,
    }
}

impl GpuDeviceError {
    /// The text of the error.
    pub fn message(&self) -> (r: String)
        ensures
            r@ == gpu_error_text(*self),
    {
        match self {
            GpuDeviceError::NoAdapter => {
                "No suitable GPU adapter found (all SOFTWARE or empty)".to_owned()
            },
            GpuDeviceError::InvalidAdapterIndex(n, max) => {
                let mut r = "Adapter index ".to_owned();
                text::push_decimal(&mut r, *n as u64);
                r.push_str(" out of range (max ");
                text::push_decimal(&mut r, *max as u64);
                r.push_str(")");
                r
            },
            GpuDeviceError::DeviceCreation(s) => {
                let mut r = "D3D11 device creation failed: ".to_owned();
                r.push_str(s.as_str());
                r
            },
            GpuDeviceError::FeatureLevelNotSatisfied => {
                "Feature level 11.0 not satisfied".to_owned()
            },
        }
    }
}

/// An adapter.
#[derive(Debug, Clone, PartialEq, Eq)]
pub struct AdapterInfo {
    pub name: String,
    pub adapter_idx: u32,
    pub dedicated_video_memory: u64,
    pub shared_system_memory: u64,
    pub software: bool,
    pub is_discrete: bool,
}

/// The name in an adapter's description: what stands before the first zero, and
/// nothing where there is no zero.
pub open spec fn described_name(units: Seq<u16>) -> Seq<char> {
    if units.contains(0) {
        text::utf16_chars(text::until_nul(units))
    } else {
        Seq::empty()
    }
}

fn name_of(units: &Vec<u16>) -> (r: String)
    ensures
        r@ == text::end_trimmed(described_name(units@), Some('\0')),
{
    let mut i: usize = 0;
    let mut terminated = false;
    while i < units.len() && !terminated
        invariant
            i <= units@.len(),
            !terminated ==> forall|j: int| 0 <= j < i ==> units@[j] != 0,
            terminated ==> units@.contains(0),
        decreases units@.len() - i + if terminated { 0int } else { 1int },
    {
        if units[i] == 0 {
            assert(units@[i as int] == 0);
            terminated = true;
        } else {
            i += 1;
        }
    }
    let name = if terminated {
        text::wide_text(units)
    } else {
        assert(!units@.contains(0));
        String::new()
    };
    text::trim_end_matches(name.as_str(), '\0')
}

/// What an adapter's description says of it. `index` is its number where that is
/// known; an adapter without a name is called by it.
pub fn adapter_info(
    description: &Vec<u16>,
    flags: u32,
    dedicated: u64,
    shared: u64,
    index: Option<u32>,
) -> (r: AdapterInfo)
    ensures
        ({
            let name = text::end_trimmed(described_name(description@), Some('\0'));
            r.name@ == if name.len() > 0 {
                name
            } else {
                match index {
                    Some(i) => "Adapter "@ + text::decimal(i as nat),
                    None => "Unknown adapter"@,
                }
            }
        }),
        r.adapter_idx == match index {
            Some(i) => i,
            None => 0,
        },
        r.dedicated_video_memory == dedicated,
        r.shared_system_memory == shared,
        r.software == (flags & ADAPTER_FLAG_SOFTWARE != 0),
        r.is_discrete == (dedicated > DISCRETE_VRAM_THRESHOLD),
{
    let found = name_of(description);
    let name = if found.as_str().is_empty() {
        match index {
            Some(i) => {
                let mut s = "Adapter ".to_owned();
                text::push_decimal(&mut s, i as u64);
                s
            },
            None => "Unknown adapter".to_owned(),
        }
    } else {
        found
    };
    AdapterInfo {
        name,
        adapter_idx: match index {
            Some(i) => i,
            None => 0,
        },
        dedicated_video_memory: dedicated,
        shared_system_memory: shared,
        software: flags & ADAPTER_FLAG_SOFTWARE != 0,
        is_discrete: dedicated > DISCRETE_VRAM_THRESHOLD,
    }
}

/// `a` is preferred to `b`: discrete adapters to others, then those with more
/// memory of their own.
pub open spec fn preferred(a: AdapterInfo, b: AdapterInfo) -> bool {
    if a.is_discrete != b.is_discrete {
        a.is_discrete
    } else {
        a.dedicated_video_memory > b.dedicated_video_memory
    }
}

/// `i` is the adapter to use: no other that is not software is preferred to it,
/// and of several equally good ones it is the last.
pub open spec fn best_adapter(s: Seq<AdapterInfo>, i: int) -> bool {
    &&& 0 <= i < s.len()
    &&& !s[i].software
    &&& forall|j: int| 0 <= j < s.len() && !(#[trigger] s[j]).software ==> !preferred(s[j], s[i])
    &&& forall|j: int| i < j < s.len() && !(#[trigger] s[j]).software ==> preferred(s[i], s[j])
}

/// There is one adapter to use at most.
pub proof fn best_adapter_is_unique(s: Seq<AdapterInfo>, i: int, j: int)
    requires
        best_adapter(s, i),
        best_adapter(s, j),
    ensures
        i == j,
{
    assert(!s[i].software && !s[j].software);
}

fn is_preferred(a: &AdapterInfo, b: &AdapterInfo) -> (r: bool)
    ensures
        r == preferred(*a, *b),
{
    if a.is_discrete != b.is_discrete {
        a.is_discrete
    } else {
        a.dedicated_video_memory > b.dedicated_video_memory
    }
}

/// The number of the last adapter.
pub open spec fn last_index(n: int) -> int {
    if n == 0 {
        0
    } else {
        n - 1
    }
}

/// Chooses an adapter: the one that the text names by its place in the list, else
/// the best that is not software. Its place is given.
pub fn select_place(adapters: &Vec<AdapterInfo>, asked: Option<&str>) -> (r: Result<
    u32,
    GpuDeviceError,
>)
    requires
        adapters@.len() <= u32::MAX,
    ensures
        match r {
            Ok(i) => i < adapters@.len() && match asked {
                Some(s) => text::parsed_unsigned(s@, u32::MAX as nat) == Some(i as nat),
                None => best_adapter(adapters@, i as int),
            },
            Err(GpuDeviceError::NoAdapter) => adapters@.len() == 0 || (asked is None && forall|
                j: int,
            | 0 <= j < adapters@.len() ==> (#[trigger] adapters@[j]).software),
            Err(GpuDeviceError::InvalidAdapterIndex(n, max)) => adapters@.len() > 0 && max
                == last_index(adapters@.len() as int) && match asked {
                Some(s) => match text::parsed_unsigned(s@, u32::MAX as nat) {
                    Some(k) => n == k && k >= adapters@.len(),
                    None => n == 0,
                },
                None => false,
            },
            Err(_) => false,
        },
{
    if adapters.len() == 0 {
        return Err(GpuDeviceError::NoAdapter);
    }
    let last: u32 = (adapters.len() - 1) as u32;
    if let Some(s) = asked {
        return match text::parse_unsigned(s, u32::MAX as u64) {
            Some(n) => {
                if n >= adapters.len() as u64 {
                    Err(GpuDeviceError::InvalidAdapterIndex(n as u32, last))
                } else {
                    Ok(n as u32)
                }
            },
            None => Err(GpuDeviceError::InvalidAdapterIndex(0, last)),
        };
    }
    let mut best: Option<usize> = None;
    let mut i: usize = 0;
    while i < adapters.len()
        invariant
            i <= adapters@.len(),
            adapters@.len() <= u32::MAX,
            match best {
                Some(b) => b < i && best_adapter(adapters@.take(i as int), b as int),
                None => forall|j: int| 0 <= j < i ==> (#[trigger] adapters@[j]).software,
            },
        decreases adapters@.len() - i,
    {
        let ghost before = adapters@.take(i as int);
        let ghost after = adapters@.take(i + 1);
        if !adapters[i].software {
            match best {
                Some(b) => {
                    if !is_preferred(&adapters[b], &adapters[i]) {
                        best = Some(i);
                        assert forall|j: int| 0 <= j < after.len() && !(
                        #[trigger] after[j]).software implies !preferred(after[j], after[i as int]) by {
                            if j < i {
                                assert(before[j] == after[j]);
                                assert(!preferred(before[j], before[b as int]));
                            }
                        }
                    } else {
                        assert forall|j: int| 0 <= j < after.len() && !(
                        #[trigger] after[j]).software implies !preferred(after[j], after[b as int]) by {
                            if j < i {
                                assert(before[j] == after[j]);
                            }
                        }
                        assert forall|j: int| b < j < after.len() && !(
                        #[trigger] after[j]).software implies preferred(after[b as int], after[j]) by {
                            if j < i {
                                assert(before[j] == after[j]);
                            }
                        }
                    }
                },
                None => {
                    best = Some(i);
                },
            }
        } else if let Some(b) = best {
            assert forall|j: int| 0 <= j < after.len() && !(
            #[trigger] after[j]).software implies !preferred(after[j], after[b as int]) by {
                if j < i {
                    assert(before[j] == after[j]);
                }
            }
            assert forall|j: int| b < j < after.len() && !(
            #[trigger] after[j]).software implies preferred(after[b as int], after[j]) by {
                if j < i {
                    assert(before[j] == after[j]);
                }
            }
        }
        i += 1;
    }
    assert(adapters@.take(i as int) =~= adapters@);
    match best {
        Some(b) => Ok(b as u32),
        None => Err(GpuDeviceError::NoAdapter),
    }
}

/// The number in the system of the adapter that is chosen, under which the device is
/// opened. It is not the adapter's place in the list where the system could not
/// describe one before it.
pub fn select_best(adapters: &Vec<AdapterInfo>, asked: Option<&str>) -> (r: Result<
    u32,
    GpuDeviceError,
>)
    requires
        adapters@.len() <= u32::MAX,
    ensures
        match r {
            Ok(n) => exists|i: int|
                {
                    &&& 0 <= i < adapters@.len()
                    &&& (#[trigger] adapters@[i]).adapter_idx == n
                    &&& match asked {
                        Some(s) => text::parsed_unsigned(s@, u32::MAX as nat) == Some(i as nat),
                        None => best_adapter(adapters@, i),
                    }
                    &&& asked is None ==> !adapters@[i].software && forall|j: int|
                        0 <= j < adapters@.len() && !(#[trigger] adapters@[j]).software ==> (
                        adapters@[j].is_discrete ==> adapters@[i].is_discrete) && (
                        adapters@[j].is_discrete == adapters@[i].is_discrete
                            ==> adapters@[j].dedicated_video_memory
                            <= adapters@[i].dedicated_video_memory)
                },
            Err(GpuDeviceError::NoAdapter) => adapters@.len() == 0 || (asked is None && forall|
                j: int,
            | 0 <= j < adapters@.len() ==> (#[trigger] adapters@[j]).software),
            Err(GpuDeviceError::InvalidAdapterIndex(n, max)) => adapters@.len() > 0 && max
                == last_index(adapters@.len() as int) && match asked {
                Some(s) => match text::parsed_unsigned(s@, u32::MAX as nat) {
                    Some(k) => n == k && k >= adapters@.len(),
                    None => n == 0,
                },
                None => false,
            },
            Err(_) => false,
        },
{
    match select_place(adapters, asked) {
        Ok(i) => {
            let n: u32 = adapters[i as usize].adapter_idx;
            proof {
                if asked is None {
                    the_best_adapter_is_used(adapters@, i as int);
                }
            }
            assert(adapters@[i as int].adapter_idx == n);
            Ok(n)
        },
        Err(e) => Err(e),
    }
}

/// Checks the feature level of a device.
pub fn check_feature_level(level: u32) -> (r: Result<(), GpuDeviceError>)
    ensures
        r == if level < FEATURE_LEVEL_11_0 {
            Err::<(), GpuDeviceError>(GpuDeviceError::FeatureLevelNotSatisfied)
        } else {
            Ok(())
        },
{
    if level < FEATURE_LEVEL_11_0 {
        Err(GpuDeviceError::FeatureLevelNotSatisfied)
    } else {
        Ok(())
    }
}

/// What is reported of the adapter that was chosen.
pub fn selection_line(info: &AdapterInfo) -> (r: String)
    ensures
        r@ == "[gpu_device] Selected GPU: "@ + text::end_trimmed(info.name@, Some('\0')) + " ("@ + (
        if info.is_discrete {
            "discrete"@
        } else {
            "integrated"@
        }) + "; "@ + text::decimal((info.dedicated_video_memory / 1_048_576) as nat)
            + " MB VRAM)"@,
{
    let mut r = "[gpu_device] Selected GPU: ".to_owned();
    let name = text::trim_end_matches(info.name.as_str(), '\0');
    r.push_str(name.as_str());
    r.push_str(" (");
    if info.is_discrete {
        r.push_str("discrete");
    } else {
        r.push_str("integrated");
    }
    r.push_str("; ");
    text::push_decimal(&mut r, info.dedicated_video_memory / 1_048_576);
    r.push_str(" MB VRAM)");
    r
}

/// Where no adapter is asked for, the one that is chosen is no software; it is discrete
/// where any that is no software is; of those of its kind none has more memory of its own;
/// and of several with as much it is the last.
pub proof fn the_best_adapter_is_used(s: Seq<AdapterInfo>, i: int)
    requires
        best_adapter(s, i),
    ensures
        0 <= i < s.len(),
        !s[i].software,
        (exists|j: int| 0 <= j < s.len() && !(#[trigger] s[j]).software && s[j].is_discrete)
            ==> s[i].is_discrete,
        forall|j: int|
            0 <= j < s.len() && !(#[trigger] s[j]).software && s[j].is_discrete == s[i].is_discrete
                ==> s[j].dedicated_video_memory <= s[i].dedicated_video_memory,
        forall|j: int|
            i < j < s.len() && !(#[trigger] s[j]).software && s[j].is_discrete == s[i].is_discrete
                ==> s[j].dedicated_video_memory < s[i].dedicated_video_memory,
{
    if exists|j: int| 0 <= j < s.len() && !(#[trigger] s[j]).software && s[j].is_discrete {
        let j = choose|j: int|
            0 <= j < s.len() && !(#[trigger] s[j]).software && s[j].is_discrete;
        assert(!preferred(s[j], s[i]));
    }
}

/// Where there is an adapter that is no software, there is a best one.
pub proof fn there_is_a_best_adapter(s: Seq<AdapterInfo>)
    requires
        exists|j: int| 0 <= j < s.len() && !(#[trigger] s[j]).software,
    ensures
        exists|i: int| best_adapter(s, i),
    decreases s.len(),
{
    let front = s.drop_last();
    let n = s.len() - 1;
    if exists|j: int| 0 <= j < front.len() && !(#[trigger] front[j]).software {
        there_is_a_best_adapter(front);
        let b = choose|i: int| best_adapter(front, i);
        assert(front[b] == s[b]);
        assert forall|j: int| 0 <= j < front.len() implies front[j] == s[j] by {}
        if !s[n].software && !preferred(s[b], s[n]) {
            assert forall|j: int| 0 <= j < s.len() && !(#[trigger] s[j]).software implies !preferred(
                s[j],
                s[n],
            ) by {
                if j < n {
                    assert(front[j] == s[j]);
                    assert(!preferred(front[j], front[b]));
                }
            }
            assert(best_adapter(s, n));
        } else {
            assert forall|j: int| 0 <= j < s.len() && !(#[trigger] s[j]).software implies !preferred(
                s[j],
                s[b],
            ) by {
                if j < n {
                    assert(front[j] == s[j]);
                }
            }
            assert forall|j: int| b < j < s.len() && !(#[trigger] s[j]).software implies preferred(
                s[b],
                s[j],
            ) by {
                if j < n {
                    assert(front[j] == s[j]);
                }
            }
            assert(best_adapter(s, b));
        }
    } else {
        let j = choose|j: int| 0 <= j < s.len() && !(#[trigger] s[j]).software;
        if j < n {
            assert(front[j] == s[j]);
        }
        assert forall|k: int| 0 <= k < n implies (#[trigger] s[k]).software by {
            assert(front[k] == s[k]);
        }
        assert(best_adapter(s, n));
    }
}

} // verus!
