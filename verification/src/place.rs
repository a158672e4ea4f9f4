//! Small pure helpers used when patching scene files: container format
//! detection and the legacy font-size conversions.

use vstd::prelude::*;

verus! {

/// The sixteen magic bytes that open a binary scene file.
pub open spec fn rbxl_magic() -> Seq<u8> {
    seq![
        0x3Cu8,
        0x72u8,
        0x6Fu8,
        0x62u8,
        0x6Cu8,
        0x6Fu8,
        0x78u8,
        0x21u8,
        0x89u8,
        0xFFu8,
        0x0Du8,
        0x0Au8,
        0x1Au8,
        0x0Au8,
        0x00u8,
        0x00u8,
    ]
}

/// True exactly when the buffer starts with the binary scene magic.
pub fn is_binary_rbxl(bytes: &[u8]) -> (r: bool)
    ensures
        r == (bytes@.len() >= 16 && bytes@.subrange(0, 16) == rbxl_magic()),
{
    let n = bytes.len();
    if n < 16 {
        return false;
    }
    let mut exp: Vec<u8> = Vec::new();
    exp.push(0x3C);
    exp.push(0x72);
    exp.push(0x6F);
    exp.push(0x62);
    exp.push(0x6C);
    exp.push(0x6F);
    exp.push(0x78);
    exp.push(0x21);
    exp.push(0x89);
    exp.push(0xFF);
    exp.push(0x0D);
    exp.push(0x0A);
    exp.push(0x1A);
    exp.push(0x0A);
    exp.push(0x00);
    exp.push(0x00);
    proof {
        assert(exp@ =~= rbxl_magic());
    }
    let mut i: usize = 0;
    while i < 16
        invariant
            i <= 16 <= bytes@.len(),
            exp@ == rbxl_magic(),
            forall|k: int| 0 <= k < i ==> #[trigger] bytes@[k] == rbxl_magic()[k],
        decreases 16 - i,
    {
        if *vstd::slice::slice_index_get(bytes, i) != exp[i] {
            proof {
                assert(bytes@.subrange(0, 16)[i as int] != rbxl_magic()[i as int]);
            }
            return false;
        }
        i = i + 1;
    }
    proof {
        assert(bytes@.subrange(0, 16) =~= rbxl_magic());
    }
    true
}

/// The display name of a legacy font-size value.
pub open spec fn spec_font_size_name(value: u32) -> Seq<char> {
    if value == 0 {
        "Size8"@
    } else if value == 1 {
        "Size9"@
    } else if value == 2 {
        "Size10"@
    } else if value == 3 {
        "Size11"@
    } else if value == 4 {
        "Size12"@
    } else if value == 5 {
        "Size14"@
    } else if value == 6 {
        "Size18"@
    } else if value == 7 {
        "Size24"@
    } else if value == 8 {
        "Size36"@
    } else if value == 9 {
        "Size48"@
    } else if value == 10 {
        "Size28"@
    } else if value == 11 {
        "Size32"@
    } else if value == 12 {
        "Size42"@
    } else if value == 13 {
        "Size60"@
    } else if value == 14 {
        "Size96"@
    } else {
        "Unknown"@
    }
}

/// Maps a legacy font-size enumeration value to its display name.
pub fn font_size_name_from_value(value: u32) -> (r: &'static str)
    ensures
        r@ == spec_font_size_name(value),
{
    match value {
        0 => "Size8",
        1 => "Size9",
        2 => "Size10",
        3 => "Size11",
        4 => "Size12",
        5 => "Size14",
        6 => "Size18",
        7 => "Size24",
        8 => "Size36",
        9 => "Size48",
        10 => "Size28",
        11 => "Size32",
        12 => "Size42",
        13 => "Size60",
        14 => "Size96",
        _ => "Unknown",
    }
}

/// Folds the font-size values newer clients know onto the nearest value
/// the legacy enumeration still has.
pub open spec fn spec_normalize_font_size(value: u32) -> u32 {
    if value == 10 {
        7u32
    } else if value == 11 {
        8u32
    } else if value == 12 {
        9u32
    } else if value == 13 {
        9u32
    } else if value == 14 {
        9u32
    } else {
        value
    }
}

/// Applies the compatibility table for font-size values.
pub fn normalize_font_size_value(value: u32) -> (r: u32)
    ensures
        r == spec_normalize_font_size(value),
{
    match value {
        10 => 7,
        11 => 8,
        12 => 9,
        13 => 9,
        14 => 9,
        _ => value,
    }
}

/// The legacy size options: text size and enumeration value.
pub open spec fn font_options() -> Seq<(int, u32)> {
    seq![
        (8, 0u32),
        (9, 1u32),
        (10, 2u32),
        (11, 3u32),
        (12, 4u32),
        (14, 5u32),
        (18, 6u32),
        (24, 7u32),
        (36, 8u32),
        (48, 9u32),
    ]
}

/// Distance between a requested text size and an option's size.
pub open spec fn size_dist(t: int, s: int) -> int {
    if t >= s {
        t - s
    } else {
        s - t
    }
}

/// The first option among the first `k` whose size is nearest to `t`.
pub open spec fn best_option(t: int, k: int) -> (int, u32)
    decreases k,
{
    if k <= 1 {
        font_options()[0]
    } else {
        let prev = best_option(t, k - 1);
        let cand = font_options()[k - 1];
        if size_dist(t, cand.0) < size_dist(t, prev.0) {
            cand
        } else {
            prev
        }
    }
}

/// Picks the legacy font-size enumeration value whose text size is nearest
/// to the requested one; on a tie the smaller size wins.
pub fn font_enum_from_text_size(text_size: i64) -> (r: u32)
    ensures
        r == best_option(text_size as int, 10).1,
{
    let t = text_size as i128;
    let mut sizes: Vec<i64> = Vec::new();
    sizes.push(8);
    sizes.push(9);
    sizes.push(10);
    sizes.push(11);
    sizes.push(12);
    sizes.push(14);
    sizes.push(18);
    sizes.push(24);
    sizes.push(36);
    sizes.push(48);
    let mut enums: Vec<u32> = Vec::new();
    enums.push(0);
    enums.push(1);
    enums.push(2);
    enums.push(3);
    enums.push(4);
    enums.push(5);
    enums.push(6);
    enums.push(7);
    enums.push(8);
    enums.push(9);
    proof {
        assert(forall|k: int|
            0 <= k < 10 ==> (#[trigger] font_options()[k]).0 == sizes@[k] as int
                && font_options()[k].1 == enums@[k]);
    }
    let mut best_size: i64 = 8;
    let mut best_enum: u32 = 0;
    let mut k: usize = 1;
    while k < 10
        invariant
            1 <= k <= 10,
            sizes@.len() == 10,
            enums@.len() == 10,
            forall|q: int|
                0 <= q < 10 ==> (#[trigger] font_options()[q]).0 == sizes@[q] as int
                    && font_options()[q].1 == enums@[q],
            best_size as int == best_option(text_size as int, k as int).0,
            best_enum == best_option(text_size as int, k as int).1,
            -49 < best_size < 49,
            t == text_size as i128,
        decreases 10 - k,
    {
        let s = sizes[k];
        let dc = if t >= s as i128 {
            t - s as i128
        } else {
            s as i128 - t
        };
        let db = if t >= best_size as i128 {
            t - best_size as i128
        } else {
            best_size as i128 - t
        };
        proof {
            assert(font_options()[k as int].0 == sizes@[k as int] as int);
            assert(dc as int == size_dist(text_size as int, font_options()[k as int].0));
            assert(db as int == size_dist(
                text_size as int,
                best_option(text_size as int, k as int).0,
            ));
        }
        if dc < db {
            best_size = s;
            best_enum = enums[k];
        }
        k = k + 1;
    }
    best_enum
}

} // verus!
