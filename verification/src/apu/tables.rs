//! The APU's fixed lookup tables: length-counter loads, noise and
//! DMC timer periods, the triangle sequence and the pulse duty patterns.

use vstd::prelude::*;

verus! {

/// The 32-entry length-counter load table, indexed by the high five
/// bits of a length register write.
pub open spec fn spec_length_table(i: int) -> u8 {
    if i == 0 {
        10
    } else if i == 1 {
        254
    } else if i == 2 {
        20
    } else if i == 3 {
        2
    } else if i == 4 {
        40
    } else if i == 5 {
        4
    } else if i == 6 {
        80
    } else if i == 7 {
        6
    } else if i == 8 {
        160
    } else if i == 9 {
        8
    } else if i == 10 {
        60
    } else if i == 11 {
        10
    } else if i == 12 {
        14
    } else if i == 13 {
        12
    } else if i == 14 {
        26
    } else if i == 15 {
        14
    } else if i == 16 {
        12
    } else if i == 17 {
        16
    } else if i == 18 {
        24
    } else if i == 19 {
        18
    } else if i == 20 {
        48
    } else if i == 21 {
        20
    } else if i == 22 {
        96
    } else if i == 23 {
        22
    } else if i == 24 {
        192
    } else if i == 25 {
        24
    } else if i == 26 {
        72
    } else if i == 27 {
        26
    } else if i == 28 {
        16
    } else if i == 29 {
        28
    } else if i == 30 {
        32
    } else {
        30
    }
}

pub fn length_value(i: u8) -> (r: u8)
    requires
        i < 32,
    ensures
        r == spec_length_table(i as int),
{
    match i {
        0 => 10,
        1 => 254,
        2 => 20,
        3 => 2,
        4 => 40,
        5 => 4,
        6 => 80,
        7 => 6,
        8 => 160,
        9 => 8,
        10 => 60,
        11 => 10,
        12 => 14,
        13 => 12,
        14 => 26,
        15 => 14,
        16 => 12,
        17 => 16,
        18 => 24,
        19 => 18,
        20 => 48,
        21 => 20,
        22 => 96,
        23 => 22,
        24 => 192,
        25 => 24,
        26 => 72,
        27 => 26,
        28 => 16,
        29 => 28,
        30 => 32,
        _ => 30,
    }
}

/// Noise-channel timer periods, indexed by the low four bits of $400E.
pub open spec fn spec_noise_period_table(i: int) -> u16 {
    if i == 0 {
        4
    } else if i == 1 {
        8
    } else if i == 2 {
        16
    } else if i == 3 {
        32
    } else if i == 4 {
        64
    } else if i == 5 {
        96
    } else if i == 6 {
        128
    } else if i == 7 {
        160
    } else if i == 8 {
        202
    } else if i == 9 {
        254
    } else if i == 10 {
        380
    } else if i == 11 {
        508
    } else if i == 12 {
        762
    } else if i == 13 {
        1016
    } else if i == 14 {
        2034
    } else {
        4068
    }
}

pub fn noise_period_value(i: u8) -> (r: u16)
    requires
        i < 16,
    ensures
        r == spec_noise_period_table(i as int),
{
    match i {
        0 => 4,
        1 => 8,
        2 => 16,
        3 => 32,
        4 => 64,
        5 => 96,
        6 => 128,
        7 => 160,
        8 => 202,
        9 => 254,
        10 => 380,
        11 => 508,
        12 => 762,
        13 => 1016,
        14 => 2034,
        _ => 4068,
    }
}

/// DMC timer periods, indexed by the low four bits of $4010.
pub open spec fn spec_dmc_rate_table(i: int) -> u16 {
    if i == 0 {
        428
    } else if i == 1 {
        380
    } else if i == 2 {
        340
    } else if i == 3 {
        320
    } else if i == 4 {
        286
    } else if i == 5 {
        254
    } else if i == 6 {
        226
    } else if i == 7 {
        214
    } else if i == 8 {
        190
    } else if i == 9 {
        160
    } else if i == 10 {
        142
    } else if i == 11 {
        128
    } else if i == 12 {
        106
    } else if i == 13 {
        85
    } else if i == 14 {
        72
    } else {
        54
    }
}

pub fn dmc_rate_value(i: u8) -> (r: u16)
    requires
        i < 16,
    ensures
        r == spec_dmc_rate_table(i as int),
{
    match i {
        0 => 428,
        1 => 380,
        2 => 340,
        3 => 320,
        4 => 286,
        5 => 254,
        6 => 226,
        7 => 214,
        8 => 190,
        9 => 160,
        10 => 142,
        11 => 128,
        12 => 106,
        13 => 85,
        14 => 72,
        _ => 54,
    }
}

/// The triangle channel's 32-step output sequence: 15 down to 0,
/// then 0 up to 15.
pub open spec fn spec_triangle_table(i: int) -> u8 {
    if i < 16 {
        (15 - i) as u8
    } else {
        (i - 16) as u8
    }
}

pub fn triangle_value(i: u8) -> (r: u8)
    requires
        i < 32,
    ensures
        r == spec_triangle_table(i as int),
{
    if i < 16 {
        15 - i
    } else {
        i - 16
    }
}

/// The four 8-step pulse duty sequences.
pub open spec fn spec_duty_table(mode: int, position: int) -> u8 {
    if mode == 0 {
        if position == 0 { 0u8 } else if position == 1 { 1u8 } else if position == 2 { 0u8 } else if position == 3 { 0u8 } else if position == 4 { 0u8 } else if position == 5 { 0u8 } else if position == 6 { 0u8 } else { 0u8 }
    } else if mode == 1 {
        if position == 0 { 0u8 } else if position == 1 { 1u8 } else if position == 2 { 1u8 } else if position == 3 { 0u8 } else if position == 4 { 0u8 } else if position == 5 { 0u8 } else if position == 6 { 0u8 } else { 0u8 }
    } else if mode == 2 {
        if position == 0 { 0u8 } else if position == 1 { 1u8 } else if position == 2 { 1u8 } else if position == 3 { 1u8 } else if position == 4 { 1u8 } else if position == 5 { 0u8 } else if position == 6 { 0u8 } else { 0u8 }
    } else if mode == 3 {
        if position == 0 { 1u8 } else if position == 1 { 0u8 } else if position == 2 { 0u8 } else if position == 3 { 1u8 } else if position == 4 { 1u8 } else if position == 5 { 1u8 } else if position == 6 { 1u8 } else { 1u8 }
    } else {
        0u8
    }
}

pub fn duty_value(mode: u8, position: u8) -> (r: u8)
    requires
        mode < 4,
        position < 8,
    ensures
        r == spec_duty_table(mode as int, position as int),
{
    let idx = mode * 8 + position;
    match idx {
        0 => 0,
        1 => 1,
        2 => 0,
        3 => 0,
        4 => 0,
        5 => 0,
        6 => 0,
        7 => 0,
        8 => 0,
        9 => 1,
        10 => 1,
        11 => 0,
        12 => 0,
        13 => 0,
        14 => 0,
        15 => 0,
        16 => 0,
        17 => 1,
        18 => 1,
        19 => 1,
        20 => 1,
        21 => 0,
        22 => 0,
        23 => 0,
        24 => 1,
        25 => 0,
        26 => 0,
        27 => 1,
        28 => 1,
        29 => 1,
        30 => 1,
        _ => 1,
    }
}

} // verus!
