//! Sines and cosines of binary angles, read from a table.
//!
//! An angle is a `u16` that counts 1/65536 of a turn, so that angles add up
//! modulo a full turn by wrapping addition. The table holds a quarter wave
//! in steps of 1/1024 of a turn; the other three quarters follow by symmetry.

use vstd::prelude::*;

verus! {

/// Angle units in a quarter of a turn.
pub const QUARTER_TURN: u16 = 16384;

/// Angle units between two entries of the table.
pub const ANGLE_STEP: u16 = 64;

/// Steps of the table in a quarter of a turn.
pub const QUARTER_STEPS: usize = 256;

/// `SINES[i]` is the sine of `i` steps, in thousandths, rounded to nearest.
pub const SINES: [i64; 257] = [
    0, 6, 12, 18, 25, 31, 37, 43, 49, 55, 61, 67, 74, 80, 86, 92,
    98, 104, 110, 116, 122, 128, 135, 141, 147, 153, 159, 165, 171, 177, 183, 189,
    195, 201, 207, 213, 219, 225, 231, 237, 243, 249, 255, 261, 267, 273, 279, 284,
    290, 296, 302, 308, 314, 320, 325, 331, 337, 343, 348, 354, 360, 366, 371, 377,
    383, 388, 394, 400, 405, 411, 416, 422, 428, 433, 439, 444, 450, 455, 461, 466,
    471, 477, 482, 488, 493, 498, 504, 509, 514, 519, 525, 530, 535, 540, 545, 550,
    556, 561, 566, 571, 576, 581, 586, 591, 596, 601, 606, 610, 615, 620, 625, 630,
    634, 639, 644, 649, 653, 658, 662, 667, 672, 676, 681, 685, 690, 694, 698, 703,
    707, 711, 716, 720, 724, 728, 733, 737, 741, 745, 749, 753, 757, 761, 765, 769,
    773, 777, 781, 785, 788, 792, 796, 800, 803, 807, 810, 814, 818, 821, 825, 828,
    831, 835, 838, 842, 845, 848, 851, 855, 858, 861, 864, 867, 870, 873, 876, 879,
    882, 885, 888, 890, 893, 896, 899, 901, 904, 907, 909, 912, 914, 917, 919, 922,
    924, 926, 929, 931, 933, 935, 937, 939, 942, 944, 946, 948, 950, 951, 953, 955,
    957, 959, 960, 962, 964, 965, 967, 969, 970, 972, 973, 974, 976, 977, 978, 980,
    981, 982, 983, 984, 985, 986, 987, 988, 989, 990, 991, 992, 992, 993, 994, 995,
    995, 996, 996, 997, 997, 998, 998, 998, 999, 999, 999, 1000, 1000, 1000, 1000, 1000,
    1000,
];

/// A vector of thousandths whose length is within one thousandth of 1.
pub open spec fn near_unit(x: int, y: int) -> bool {
    999 * 999 <= x * x + y * y <= 1001 * 1001
}

/// The table's entry for `step`, which counts from 0 to a quarter turn.
pub open spec fn quarter_sine(step: int) -> int {
    SINES[step] as int
}

/// Sine of `angle` in thousandths.
pub open spec fn sine(angle: u16) -> int {
    let step = angle as int / 64;
    let within = step % 256;
    if step < 256 {
        quarter_sine(within)
    } else if step < 512 {
        quarter_sine(256 - within)
    } else if step < 768 {
        -quarter_sine(within)
    } else {
        -quarter_sine(256 - within)
    }
}

/// Cosine of `angle` in thousandths.
pub open spec fn cosine(angle: u16) -> int {
    let step = angle as int / 64;
    let within = step % 256;
    if step < 256 {
        quarter_sine(256 - within)
    } else if step < 512 {
        -quarter_sine(within)
    } else if step < 768 {
        -quarter_sine(256 - within)
    } else {
        quarter_sine(within)
    }
}

/// The lower half of the quarter wave, entry by entry: each sine and the
/// cosine that belongs to it make a vector of length 1.
proof fn lemma_lower_quarter_unit(i: int)
    requires
        0 <= i <= 128,
    ensures
        near_unit(quarter_sine(i), quarter_sine(256 - i)),
        0 <= quarter_sine(i) <= 1000,
        0 <= quarter_sine(256 - i) <= 1000,
{
    if i == 0 {
        assert(near_unit(SINES[0] as int, SINES[256] as int));
    }
    if i == 1 {
        assert(near_unit(SINES[1] as int, SINES[255] as int));
    }
    if i == 2 {
        assert(near_unit(SINES[2] as int, SINES[254] as int));
    }
    if i == 3 {
        assert(near_unit(SINES[3] as int, SINES[253] as int));
    }
    if i == 4 {
        assert(near_unit(SINES[4] as int, SINES[252] as int));
    }
    if i == 5 {
        assert(near_unit(SINES[5] as int, SINES[251] as int));
    }
    if i == 6 {
        assert(near_unit(SINES[6] as int, SINES[250] as int));
    }
    if i == 7 {
        assert(near_unit(SINES[7] as int, SINES[249] as int));
    }
    if i == 8 {
        assert(near_unit(SINES[8] as int, SINES[248] as int));
    }
    if i == 9 {
        assert(near_unit(SINES[9] as int, SINES[247] as int));
    }
    if i == 10 {
        assert(near_unit(SINES[10] as int, SINES[246] as int));
    }
    if i == 11 {
        assert(near_unit(SINES[11] as int, SINES[245] as int));
    }
    if i == 12 {
        assert(near_unit(SINES[12] as int, SINES[244] as int));
    }
    if i == 13 {
        assert(near_unit(SINES[13] as int, SINES[243] as int));
    }
    if i == 14 {
        assert(near_unit(SINES[14] as int, SINES[242] as int));
    }
    if i == 15 {
        assert(near_unit(SINES[15] as int, SINES[241] as int));
    }
    if i == 16 {
        assert(near_unit(SINES[16] as int, SINES[240] as int));
    }
    if i == 17 {
        assert(near_unit(SINES[17] as int, SINES[239] as int));
    }
    if i == 18 {
        assert(near_unit(SINES[18] as int, SINES[238] as int));
    }
    if i == 19 {
        assert(near_unit(SINES[19] as int, SINES[237] as int));
    }
    if i == 20 {
        assert(near_unit(SINES[20] as int, SINES[236] as int));
    }
    if i == 21 {
        assert(near_unit(SINES[21] as int, SINES[235] as int));
    }
    if i == 22 {
        assert(near_unit(SINES[22] as int, SINES[234] as int));
    }
    if i == 23 {
        assert(near_unit(SINES[23] as int, SINES[233] as int));
    }
    if i == 24 {
        assert(near_unit(SINES[24] as int, SINES[232] as int));
    }
    if i == 25 {
        assert(near_unit(SINES[25] as int, SINES[231] as int));
    }
    if i == 26 {
        assert(near_unit(SINES[26] as int, SINES[230] as int));
    }
    if i == 27 {
        assert(near_unit(SINES[27] as int, SINES[229] as int));
    }
    if i == 28 {
        assert(near_unit(SINES[28] as int, SINES[228] as int));
    }
    if i == 29 {
        assert(near_unit(SINES[29] as int, SINES[227] as int));
    }
    if i == 30 {
        assert(near_unit(SINES[30] as int, SINES[226] as int));
    }
    if i == 31 {
        assert(near_unit(SINES[31] as int, SINES[225] as int));
    }
    if i == 32 {
        assert(near_unit(SINES[32] as int, SINES[224] as int));
    }
    if i == 33 {
        assert(near_unit(SINES[33] as int, SINES[223] as int));
    }
    if i == 34 {
        assert(near_unit(SINES[34] as int, SINES[222] as int));
    }
    if i == 35 {
        assert(near_unit(SINES[35] as int, SINES[221] as int));
    }
    if i == 36 {
        assert(near_unit(SINES[36] as int, SINES[220] as int));
    }
    if i == 37 {
        assert(near_unit(SINES[37] as int, SINES[219] as int));
    }
    if i == 38 {
        assert(near_unit(SINES[38] as int, SINES[218] as int));
    }
    if i == 39 {
        assert(near_unit(SINES[39] as int, SINES[217] as int));
    }
    if i == 40 {
        assert(near_unit(SINES[40] as int, SINES[216] as int));
    }
    if i == 41 {
        assert(near_unit(SINES[41] as int, SINES[215] as int));
    }
    if i == 42 {
        assert(near_unit(SINES[42] as int, SINES[214] as int));
    }
    if i == 43 {
        assert(near_unit(SINES[43] as int, SINES[213] as int));
    }
    if i == 44 {
        assert(near_unit(SINES[44] as int, SINES[212] as int));
    }
    if i == 45 {
        assert(near_unit(SINES[45] as int, SINES[211] as int));
    }
    if i == 46 {
        assert(near_unit(SINES[46] as int, SINES[210] as int));
    }
    if i == 47 {
        assert(near_unit(SINES[47] as int, SINES[209] as int));
    }
    if i == 48 {
        assert(near_unit(SINES[48] as int, SINES[208] as int));
    }
    if i == 49 {
        assert(near_unit(SINES[49] as int, SINES[207] as int));
    }
    if i == 50 {
        assert(near_unit(SINES[50] as int, SINES[206] as int));
    }
    if i == 51 {
        assert(near_unit(SINES[51] as int, SINES[205] as int));
    }
    if i == 52 {
        assert(near_unit(SINES[52] as int, SINES[204] as int));
    }
    if i == 53 {
        assert(near_unit(SINES[53] as int, SINES[203] as int));
    }
    if i == 54 {
        assert(near_unit(SINES[54] as int, SINES[202] as int));
    }
    if i == 55 {
        assert(near_unit(SINES[55] as int, SINES[201] as int));
    }
    if i == 56 {
        assert(near_unit(SINES[56] as int, SINES[200] as int));
    }
    if i == 57 {
        assert(near_unit(SINES[57] as int, SINES[199] as int));
    }
    if i == 58 {
        assert(near_unit(SINES[58] as int, SINES[198] as int));
    }
    if i == 59 {
        assert(near_unit(SINES[59] as int, SINES[197] as int));
    }
    if i == 60 {
        assert(near_unit(SINES[60] as int, SINES[196] as int));
    }
    if i == 61 {
        assert(near_unit(SINES[61] as int, SINES[195] as int));
    }
    if i == 62 {
        assert(near_unit(SINES[62] as int, SINES[194] as int));
    }
    if i == 63 {
        assert(near_unit(SINES[63] as int, SINES[193] as int));
    }
    if i == 64 {
        assert(near_unit(SINES[64] as int, SINES[192] as int));
    }
    if i == 65 {
        assert(near_unit(SINES[65] as int, SINES[191] as int));
    }
    if i == 66 {
        assert(near_unit(SINES[66] as int, SINES[190] as int));
    }
    if i == 67 {
        assert(near_unit(SINES[67] as int, SINES[189] as int));
    }
    if i == 68 {
        assert(near_unit(SINES[68] as int, SINES[188] as int));
    }
    if i == 69 {
        assert(near_unit(SINES[69] as int, SINES[187] as int));
    }
    if i == 70 {
        assert(near_unit(SINES[70] as int, SINES[186] as int));
    }
    if i == 71 {
        assert(near_unit(SINES[71] as int, SINES[185] as int));
    }
    if i == 72 {
        assert(near_unit(SINES[72] as int, SINES[184] as int));
    }
    if i == 73 {
        assert(near_unit(SINES[73] as int, SINES[183] as int));
    }
    if i == 74 {
        assert(near_unit(SINES[74] as int, SINES[182] as int));
    }
    if i == 75 {
        assert(near_unit(SINES[75] as int, SINES[181] as int));
    }
    if i == 76 {
        assert(near_unit(SINES[76] as int, SINES[180] as int));
    }
    if i == 77 {
        assert(near_unit(SINES[77] as int, SINES[179] as int));
    }
    if i == 78 {
        assert(near_unit(SINES[78] as int, SINES[178] as int));
    }
    if i == 79 {
        assert(near_unit(SINES[79] as int, SINES[177] as int));
    }
    if i == 80 {
        assert(near_unit(SINES[80] as int, SINES[176] as int));
    }
    if i == 81 {
        assert(near_unit(SINES[81] as int, SINES[175] as int));
    }
    if i == 82 {
        assert(near_unit(SINES[82] as int, SINES[174] as int));
    }
    if i == 83 {
        assert(near_unit(SINES[83] as int, SINES[173] as int));
    }
    if i == 84 {
        assert(near_unit(SINES[84] as int, SINES[172] as int));
    }
    if i == 85 {
        assert(near_unit(SINES[85] as int, SINES[171] as int));
    }
    if i == 86 {
        assert(near_unit(SINES[86] as int, SINES[170] as int));
    }
    if i == 87 {
        assert(near_unit(SINES[87] as int, SINES[169] as int));
    }
    if i == 88 {
        assert(near_unit(SINES[88] as int, SINES[168] as int));
    }
    if i == 89 {
        assert(near_unit(SINES[89] as int, SINES[167] as int));
    }
    if i == 90 {
        assert(near_unit(SINES[90] as int, SINES[166] as int));
    }
    if i == 91 {
        assert(near_unit(SINES[91] as int, SINES[165] as int));
    }
    if i == 92 {
        assert(near_unit(SINES[92] as int, SINES[164] as int));
    }
    if i == 93 {
        assert(near_unit(SINES[93] as int, SINES[163] as int));
    }
    if i == 94 {
        assert(near_unit(SINES[94] as int, SINES[162] as int));
    }
    if i == 95 {
        assert(near_unit(SINES[95] as int, SINES[161] as int));
    }
    if i == 96 {
        assert(near_unit(SINES[96] as int, SINES[160] as int));
    }
    if i == 97 {
        assert(near_unit(SINES[97] as int, SINES[159] as int));
    }
    if i == 98 {
        assert(near_unit(SINES[98] as int, SINES[158] as int));
    }
    if i == 99 {
        assert(near_unit(SINES[99] as int, SINES[157] as int));
    }
    if i == 100 {
        assert(near_unit(SINES[100] as int, SINES[156] as int));
    }
    if i == 101 {
        assert(near_unit(SINES[101] as int, SINES[155] as int));
    }
    if i == 102 {
        assert(near_unit(SINES[102] as int, SINES[154] as int));
    }
    if i == 103 {
        assert(near_unit(SINES[103] as int, SINES[153] as int));
    }
    if i == 104 {
        assert(near_unit(SINES[104] as int, SINES[152] as int));
    }
    if i == 105 {
        assert(near_unit(SINES[105] as int, SINES[151] as int));
    }
    if i == 106 {
        assert(near_unit(SINES[106] as int, SINES[150] as int));
    }
    if i == 107 {
        assert(near_unit(SINES[107] as int, SINES[149] as int));
    }
    if i == 108 {
        assert(near_unit(SINES[108] as int, SINES[148] as int));
    }
    if i == 109 {
        assert(near_unit(SINES[109] as int, SINES[147] as int));
    }
    if i == 110 {
        assert(near_unit(SINES[110] as int, SINES[146] as int));
    }
    if i == 111 {
        assert(near_unit(SINES[111] as int, SINES[145] as int));
    }
    if i == 112 {
        assert(near_unit(SINES[112] as int, SINES[144] as int));
    }
    if i == 113 {
        assert(near_unit(SINES[113] as int, SINES[143] as int));
    }
    if i == 114 {
        assert(near_unit(SINES[114] as int, SINES[142] as int));
    }
    if i == 115 {
        assert(near_unit(SINES[115] as int, SINES[141] as int));
    }
    if i == 116 {
        assert(near_unit(SINES[116] as int, SINES[140] as int));
    }
    if i == 117 {
        assert(near_unit(SINES[117] as int, SINES[139] as int));
    }
    if i == 118 {
        assert(near_unit(SINES[118] as int, SINES[138] as int));
    }
    if i == 119 {
        assert(near_unit(SINES[119] as int, SINES[137] as int));
    }
    if i == 120 {
        assert(near_unit(SINES[120] as int, SINES[136] as int));
    }
    if i == 121 {
        assert(near_unit(SINES[121] as int, SINES[135] as int));
    }
    if i == 122 {
        assert(near_unit(SINES[122] as int, SINES[134] as int));
    }
    if i == 123 {
        assert(near_unit(SINES[123] as int, SINES[133] as int));
    }
    if i == 124 {
        assert(near_unit(SINES[124] as int, SINES[132] as int));
    }
    if i == 125 {
        assert(near_unit(SINES[125] as int, SINES[131] as int));
    }
    if i == 126 {
        assert(near_unit(SINES[126] as int, SINES[130] as int));
    }
    if i == 127 {
        assert(near_unit(SINES[127] as int, SINES[129] as int));
    }
    if i == 128 {
        assert(near_unit(SINES[128] as int, SINES[128] as int));
    }
}

/// Every entry of the table lies between 0 and 1, and with the entry that
/// mirrors it makes a vector of length 1.
pub proof fn lemma_quarter_unit(i: int)
    requires
        0 <= i <= 256,
    ensures
        near_unit(quarter_sine(i), quarter_sine(256 - i)),
        0 <= quarter_sine(i) <= 1000,
{
    if i <= 128 {
        lemma_lower_quarter_unit(i);
    } else {
        lemma_lower_quarter_unit(256 - i);
    }
}

/// The sine and cosine of any angle make a vector of length 1, to within
/// one thousandth, and neither exceeds 1.
pub proof fn lemma_sine_cosine_unit(angle: u16)
    ensures
        near_unit(sine(angle), cosine(angle)),
        -1000 <= sine(angle) <= 1000,
        -1000 <= cosine(angle) <= 1000,
{
    let step = angle as int / 64;
    let within = step % 256;
    lemma_quarter_unit(within);
    lemma_quarter_unit(256 - within);
    let s = quarter_sine(within);
    let c = quarter_sine(256 - within);
    assert((-s) * (-s) == s * s) by (nonlinear_arith);
    assert((-c) * (-c) == c * c) by (nonlinear_arith);
}

/// Angle 0 points along +Y, a quarter turn along +X, and so on round the
/// compass: the heading turns clockwise as the angle grows.
pub proof fn lemma_compass_points()
    ensures
        sine(0) == 0 && cosine(0) == 1000,
        sine(16384) == 1000 && cosine(16384) == 0,
        sine(32768) == 0 && cosine(32768) == -1000,
        sine(49152) == -1000 && cosine(49152) == 0,
{
    assert(SINES[0] == 0);
    assert(SINES[256] == 1000);
}

/// Sine and cosine of `angle`, in thousandths.
pub fn sin_cos(angle: u16) -> (r: (i64, i64))
    ensures
        r.0 == sine(angle),
        r.1 == cosine(angle),
{
    let step: usize = (angle / ANGLE_STEP) as usize;
    let within: usize = step % QUARTER_STEPS;
    let mirrored: usize = QUARTER_STEPS - within;
    proof {
        lemma_quarter_unit(within as int);
        lemma_quarter_unit(mirrored as int);
    }
    if step < 256 {
        (SINES[within], SINES[mirrored])
    } else if step < 512 {
        (SINES[mirrored], -SINES[within])
    } else if step < 768 {
        (-SINES[within], -SINES[mirrored])
    } else {
        (-SINES[mirrored], SINES[within])
    }
}

} // verus!
