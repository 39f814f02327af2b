//
//  msgf_table.rs
//  Musical Sound Generator Framework
//      Global lookup tables, in fixed-point form.
//
//  All audio-rate and control-rate values in this crate are Q15 fixed point
//  (32768 stands for 1.0), frequencies are Q16 (65536 stands for 1.0 Hz),
//  and oscillator phase is Q24 (PHASE_ONE stands for one full cycle).
//
use vstd::prelude::*;

verus! {

/// One cycle of a sine wave, Q15, 257 entries; entry 256 repeats entry 0
/// so that linear interpolation may read one entry past the index.
pub const SIN_TABLE: [i32; 257] = [
    0, 804, 1608, 2410, 3212, 4011, 4808, 5602, 6393, 7179, 7962, 8739,
    9512, 10278, 11039, 11793, 12539, 13279, 14010, 14732, 15446, 16151, 16846, 17530,
    18204, 18868, 19519, 20159, 20787, 21403, 22005, 22594, 23170, 23731, 24279, 24811,
    25329, 25832, 26319, 26790, 27245, 27683, 28105, 28510, 28898, 29268, 29621, 29956,
    30273, 30571, 30852, 31113, 31356, 31580, 31785, 31971, 32137, 32285, 32412, 32521,
    32609, 32678, 32728, 32757, 32767, 32757, 32728, 32678, 32609, 32521, 32412, 32285,
    32137, 31971, 31785, 31580, 31356, 31113, 30852, 30571, 30273, 29956, 29621, 29268,
    28898, 28510, 28105, 27683, 27245, 26790, 26319, 25832, 25329, 24811, 24279, 23731,
    23170, 22594, 22005, 21403, 20787, 20159, 19519, 18868, 18204, 17530, 16846, 16151,
    15446, 14732, 14010, 13279, 12539, 11793, 11039, 10278, 9512, 8739, 7962, 7179,
    6393, 5602, 4808, 4011, 3212, 2410, 1608, 804, 0, -804, -1608, -2410,
    -3212, -4011, -4808, -5602, -6393, -7179, -7962, -8739, -9512, -10278, -11039, -11793,
    -12539, -13279, -14010, -14732, -15446, -16151, -16846, -17530, -18204, -18868, -19519, -20159,
    -20787, -21403, -22005, -22594, -23170, -23731, -24279, -24811, -25329, -25832, -26319, -26790,
    -27245, -27683, -28105, -28510, -28898, -29268, -29621, -29956, -30273, -30571, -30852, -31113,
    -31356, -31580, -31785, -31971, -32137, -32285, -32412, -32521, -32609, -32678, -32728, -32757,
    -32767, -32757, -32728, -32678, -32609, -32521, -32412, -32285, -32137, -31971, -31785, -31580,
    -31356, -31113, -30852, -30571, -30273, -29956, -29621, -29268, -28898, -28510, -28105, -27683,
    -27245, -26790, -26319, -25832, -25329, -24811, -24279, -23731, -23170, -22594, -22005, -21403,
    -20787, -20159, -19519, -18868, -18204, -17530, -16846, -16151, -15446, -14732, -14010, -13279,
    -12539, -11793, -11039, -10278, -9512, -8739, -7962, -7179, -6393, -5602, -4808, -4011,
    -3212, -2410, -1608, -804, 0,
];

/// One cycle of a glottal-pulse wave for the vocal oscillator, Q15,
/// zero mean, normalised to full scale; entry 256 repeats entry 0.
pub const VOCAL_TABLE: [i32; 257] = [
    -15946, -15934, -15900, -15843, -15762, -15660, -15534, -15386, -15216, -15023, -14808, -14572,
    -14314, -14034, -13733, -13412, -13070, -12707, -12325, -11923, -11502, -11063, -10605, -10129,
    -9636, -9126, -8599, -8056, -7498, -6925, -6337, -5735, -5121, -4493, -3853, -3202,
    -2540, -1867, -1185, -494, 206, 913, 1628, 2348, 3075, 3806, 4542, 5282,
    6024, 6769, 7515, 8262, 9009, 9756, 10501, 11245, 11986, 12723, 13456, 14185,
    14908, 15625, 16335, 17038, 17733, 18419, 19095, 19762, 20417, 21062, 21694, 22314,
    22921, 23514, 24094, 24658, 25207, 25740, 26257, 26757, 27240, 27705, 28152, 28580,
    28990, 29380, 29750, 30100, 30430, 30739, 31027, 31294, 31539, 31763, 31964, 32144,
    32301, 32435, 32547, 32636, 32703, 32746, 32767, 32761, 32710, 32614, 32472, 32285,
    32052, 31774, 31451, 31083, 30671, 30215, 29716, 29174, 28590, 27963, 27295, 26587,
    25838, 25050, 24224, 23360, 22458, 21521, 20548, 19541, 18501, 17428, 16324, 15189,
    14025, 12833, 11614, 10369, 9099, 7805, 6489, 5152, 3795, 2420, 1027, -381,
    -1805, -3241, -4690, -6149, -7617, -9094, -10576, -12064, -13555, -15049, -15946, -15946,
    -15946, -15946, -15946, -15946, -15946, -15946, -15946, -15946, -15946, -15946, -15946, -15946,
    -15946, -15946, -15946, -15946, -15946, -15946, -15946, -15946, -15946, -15946, -15946, -15946,
    -15946, -15946, -15946, -15946, -15946, -15946, -15946, -15946, -15946, -15946, -15946, -15946,
    -15946, -15946, -15946, -15946, -15946, -15946, -15946, -15946, -15946, -15946, -15946, -15946,
    -15946, -15946, -15946, -15946, -15946, -15946, -15946, -15946, -15946, -15946, -15946, -15946,
    -15946, -15946, -15946, -15946, -15946, -15946, -15946, -15946, -15946, -15946, -15946, -15946,
    -15946, -15946, -15946, -15946, -15946, -15946, -15946, -15946, -15946, -15946, -15946, -15946,
    -15946, -15946, -15946, -15946, -15946, -15946, -15946, -15946, -15946, -15946, -15946, -15946,
    -15946, -15946, -15946, -15946, -15946,
];

/// Fourier amplitudes of a pulse wave with 10% duty, Q15; entry j holds
/// the weight of overtone j, entry 0 is unused.
pub const PULSE0_1: [i32; 33] = [
    0, 6446, 6131, 5625, 4960, 4172, 3307, 2411, 1533, 716, 0, -586,
    -1022, -1298, -1417, -1391, -1240, -993, -681, -339, 0, 307, 557, 734,
    827, 834, 763, 625, 438, 222, 0, -208, -383,
];

/// Frequency of the note A in each octave, Q16 Hz; index 0 holds 13.75 Hz.
pub const PITCH_OF_A: [u32; 11] = [
    901120, 1802240, 3604480, 7208960, 14417920, 28835840,
    57671680, 115343360, 230686720, 461373440, 922746880,
];

/// 2^(s/12) for s in 0..12, Q16: the ratio of s equal-tempered semitones.
pub const SEMITONE_RATIO: [u32; 12] = [
    65536, 69433, 73562, 77936, 82570, 87480,
    92682, 98193, 104032, 110218, 116772, 123715,
];

/// 2^(c/1200) for c in 0..100, Q16: the ratio of c cents.
pub const CENT_RATIO: [u32; 100] = [
    65536, 65574, 65612, 65650, 65688, 65726, 65764, 65802, 65840, 65878,
    65916, 65954, 65992, 66030, 66068, 66106, 66144, 66183, 66221, 66259,
    66297, 66336, 66374, 66412, 66451, 66489, 66528, 66566, 66605, 66643,
    66682, 66720, 66759, 66797, 66836, 66874, 66913, 66952, 66990, 67029,
    67068, 67107, 67145, 67184, 67223, 67262, 67301, 67340, 67378, 67417,
    67456, 67495, 67534, 67573, 67612, 67651, 67691, 67730, 67769, 67808,
    67847, 67886, 67926, 67965, 68004, 68043, 68083, 68122, 68161, 68201,
    68240, 68280, 68319, 68359, 68398, 68438, 68477, 68517, 68556, 68596,
    68635, 68675, 68715, 68755, 68794, 68834, 68874, 68914, 68953, 68993,
    69033, 69073, 69113, 69153, 69193, 69233, 69273, 69313, 69353, 69393,
];

/// e^(-k/8) for k in 0..97, Q15; used for the formant gaussian curve.
pub const EXP_NEG: [i32; 97] = [
    32768, 28918, 25520, 22521, 19875, 17539, 15479, 13660, 12055, 10638,
    9388, 8285, 7312, 6452, 5694, 5025, 4435, 3914, 3454, 3048,
    2690, 2374, 2095, 1849, 1631, 1440, 1271, 1121, 990, 873,
    771, 680, 600, 530, 467, 412, 364, 321, 283, 250,
    221, 195, 172, 152, 134, 118, 104, 92, 81, 72,
    63, 56, 49, 43, 38, 34, 30, 26, 23, 21,
    18, 16, 14, 12, 11, 10, 9, 8, 7, 6,
    5, 5, 4, 4, 3, 3, 2, 2, 2, 2,
    1, 1, 1, 1, 1, 1, 1, 1, 1, 0,
    0, 0, 0, 0, 0, 0, 0,
];

} // verus!
