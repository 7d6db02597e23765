//! The adaptive tick rate: how long one scheduler cycle lasts for a chain of
//! a given length.

use vstd::prelude::*;

verus! {

/// Scheduler period at session start, in microseconds (one second).
pub const START_DURATION_US: u64 = 1000000;

/// Period floor, in microseconds: every period is strictly above it.
pub const DURATION_FLOOR_US: u64 = 100000;

/// The speed law: the scheduler period for a chain of `n` segments, in
/// microseconds. The value is `0.9 / e^((n - 1) / 40) + 0.1` seconds rounded
/// to the microsecond, tabulated for every chain length the board can hold
/// (`NUM_CELLS` cells); past that the period rests just above its floor.
pub open spec fn spec_duration_us(n: int) -> int {
    if n <= 1 {
        1000000
    } else if n == 2 {
        977779
    } else if n == 3 {
        956106
    } else if n == 4 {
        934969
    } else if n == 5 {
        914354
    } else if n == 6 {
        894247
    } else if n == 7 {
        874637
    } else if n == 8 {
        855511
    } else if n == 9 {
        836858
    } else if n == 10 {
        818665
    } else if n == 11 {
        800921
    } else if n == 12 {
        783615
    } else if n == 13 {
        766736
    } else if n == 14 {
        750275
    } else if n == 15 {
        734219
    } else if n == 16 {
        718560
    } else if n == 17 {
        703288
    } else if n == 18 {
        688393
    } else if n == 19 {
        673865
    } else if n == 20 {
        659697
    } else if n == 21 {
        645878
    } else if n == 22 {
        632400
    } else if n == 23 {
        619255
    } else if n == 24 {
        606434
    } else if n == 25 {
        593930
    } else if n == 26 {
        581735
    } else if n == 27 {
        569841
    } else if n == 28 {
        558241
    } else if n == 29 {
        546927
    } else if n == 30 {
        535892
    } else if n == 31 {
        525130
    } else if n == 32 {
        514633
    } else if n == 33 {
        504396
    } else if n == 34 {
        494411
    } else if n == 35 {
        484673
    } else if n == 36 {
        475176
    } else if n == 37 {
        465913
    } else if n == 38 {
        456878
    } else if n == 39 {
        448067
    } else if n == 40 {
        439473
    } else if n == 41 {
        431091
    } else if n == 42 {
        422917
    } else if n == 43 {
        414944
    } else if n == 44 {
        407168
    } else if n == 45 {
        399584
    } else if n == 46 {
        392187
    } else if n == 47 {
        384973
    } else if n == 48 {
        377937
    } else if n == 49 {
        371075
    } else if n == 50 {
        364382
    } else if n == 51 {
        357854
    } else if n == 52 {
        351488
    } else if n == 53 {
        345279
    } else if n == 54 {
        339223
    } else if n == 55 {
        333316
    } else if n == 56 {
        327556
    } else if n == 57 {
        321937
    } else if n == 58 {
        316458
    } else if n == 59 {
        311113
    } else if n == 60 {
        305901
    } else if n == 61 {
        300817
    } else if n == 62 {
        295859
    } else if n == 63 {
        291023
    } else if n == 64 {
        286307
    } else if n == 65 {
        281707
    } else if n == 66 {
        277221
    } else if n == 67 {
        272845
    } else if n == 68 {
        268577
    } else if n == 69 {
        264415
    } else if n == 70 {
        260356
    } else if n == 71 {
        256397
    } else if n == 72 {
        252535
    } else if n == 73 {
        248769
    } else if n == 74 {
        245096
    } else if n == 75 {
        241513
    } else if n == 76 {
        238019
    } else if n == 77 {
        234612
    } else if n == 78 {
        231288
    } else if n == 79 {
        228047
    } else if n == 80 {
        224885
    } else if n == 81 {
        221802
    } else if n == 82 {
        218794
    } else if n == 83 {
        215861
    } else if n == 84 {
        213001
    } else if n == 85 {
        210211
    } else if n == 86 {
        207490
    } else if n == 87 {
        204836
    } else if n == 88 {
        202247
    } else if n == 89 {
        199723
    } else if n == 90 {
        197261
    } else if n == 91 {
        194859
    } else if n == 92 {
        192517
    } else if n == 93 {
        190233
    } else if n == 94 {
        188005
    } else if n == 95 {
        185832
    } else if n == 96 {
        183713
    } else if n == 97 {
        181646
    } else if n == 98 {
        179630
    } else if n == 99 {
        177664
    } else if n == 100 {
        175747
    } else if n == 101 {
        173876
    } else if n == 102 {
        172052
    } else if n == 103 {
        170273
    } else if n == 104 {
        168538
    } else if n == 105 {
        166846
    } else if n == 106 {
        165196
    } else if n == 107 {
        163586
    } else if n == 108 {
        162016
    } else if n == 109 {
        160485
    } else if n == 110 {
        158992
    } else if n == 111 {
        157535
    } else if n == 112 {
        156115
    } else if n == 113 {
        154729
    } else if n == 114 {
        153378
    } else if n == 115 {
        152060
    } else if n == 116 {
        150775
    } else if n == 117 {
        149521
    } else if n == 118 {
        148298
    } else if n == 119 {
        147106
    } else if n == 120 {
        145943
    } else if n == 121 {
        144808
    } else {
        100001
    }
}

/// Executable form of the speed law; see `spec_duration_us`.
pub fn duration_us(n: usize) -> (r: u64)
    ensures
        r as int == spec_duration_us(n as int),
{
    if n <= 1 {
        1000000
    } else if n == 2 {
        977779
    } else if n == 3 {
        956106
    } else if n == 4 {
        934969
    } else if n == 5 {
        914354
    } else if n == 6 {
        894247
    } else if n == 7 {
        874637
    } else if n == 8 {
        855511
    } else if n == 9 {
        836858
    } else if n == 10 {
        818665
    } else if n == 11 {
        800921
    } else if n == 12 {
        783615
    } else if n == 13 {
        766736
    } else if n == 14 {
        750275
    } else if n == 15 {
        734219
    } else if n == 16 {
        718560
    } else if n == 17 {
        703288
    } else if n == 18 {
        688393
    } else if n == 19 {
        673865
    } else if n == 20 {
        659697
    } else if n == 21 {
        645878
    } else if n == 22 {
        632400
    } else if n == 23 {
        619255
    } else if n == 24 {
        606434
    } else if n == 25 {
        593930
    } else if n == 26 {
        581735
    } else if n == 27 {
        569841
    } else if n == 28 {
        558241
    } else if n == 29 {
        546927
    } else if n == 30 {
        535892
    } else if n == 31 {
        525130
    } else if n == 32 {
        514633
    } else if n == 33 {
        504396
    } else if n == 34 {
        494411
    } else if n == 35 {
        484673
    } else if n == 36 {
        475176
    } else if n == 37 {
        465913
    } else if n == 38 {
        456878
    } else if n == 39 {
        448067
    } else if n == 40 {
        439473
    } else if n == 41 {
        431091
    } else if n == 42 {
        422917
    } else if n == 43 {
        414944
    } else if n == 44 {
        407168
    } else if n == 45 {
        399584
    } else if n == 46 {
        392187
    } else if n == 47 {
        384973
    } else if n == 48 {
        377937
    } else if n == 49 {
        371075
    } else if n == 50 {
        364382
    } else if n == 51 {
        357854
    } else if n == 52 {
        351488
    } else if n == 53 {
        345279
    } else if n == 54 {
        339223
    } else if n == 55 {
        333316
    } else if n == 56 {
        327556
    } else if n == 57 {
        321937
    } else if n == 58 {
        316458
    } else if n == 59 {
        311113
    } else if n == 60 {
        305901
    } else if n == 61 {
        300817
    } else if n == 62 {
        295859
    } else if n == 63 {
        291023
    } else if n == 64 {
        286307
    } else if n == 65 {
        281707
    } else if n == 66 {
        277221
    } else if n == 67 {
        272845
    } else if n == 68 {
        268577
    } else if n == 69 {
        264415
    } else if n == 70 {
        260356
    } else if n == 71 {
        256397
    } else if n == 72 {
        252535
    } else if n == 73 {
        248769
    } else if n == 74 {
        245096
    } else if n == 75 {
        241513
    } else if n == 76 {
        238019
    } else if n == 77 {
        234612
    } else if n == 78 {
        231288
    } else if n == 79 {
        228047
    } else if n == 80 {
        224885
    } else if n == 81 {
        221802
    } else if n == 82 {
        218794
    } else if n == 83 {
        215861
    } else if n == 84 {
        213001
    } else if n == 85 {
        210211
    } else if n == 86 {
        207490
    } else if n == 87 {
        204836
    } else if n == 88 {
        202247
    } else if n == 89 {
        199723
    } else if n == 90 {
        197261
    } else if n == 91 {
        194859
    } else if n == 92 {
        192517
    } else if n == 93 {
        190233
    } else if n == 94 {
        188005
    } else if n == 95 {
        185832
    } else if n == 96 {
        183713
    } else if n == 97 {
        181646
    } else if n == 98 {
        179630
    } else if n == 99 {
        177664
    } else if n == 100 {
        175747
    } else if n == 101 {
        173876
    } else if n == 102 {
        172052
    } else if n == 103 {
        170273
    } else if n == 104 {
        168538
    } else if n == 105 {
        166846
    } else if n == 106 {
        165196
    } else if n == 107 {
        163586
    } else if n == 108 {
        162016
    } else if n == 109 {
        160485
    } else if n == 110 {
        158992
    } else if n == 111 {
        157535
    } else if n == 112 {
        156115
    } else if n == 113 {
        154729
    } else if n == 114 {
        153378
    } else if n == 115 {
        152060
    } else if n == 116 {
        150775
    } else if n == 117 {
        149521
    } else if n == 118 {
        148298
    } else if n == 119 {
        147106
    } else if n == 120 {
        145943
    } else if n == 121 {
        144808
    } else {
        100001
    }
}

/// The speed law is strictly decreasing over every chain length the board
/// can hold.
pub proof fn lemma_duration_strictly_decreasing(n: int)
    requires
        1 <= n <= 121,
    ensures
        spec_duration_us(n + 1) < spec_duration_us(n),
{
}

/// The speed law stays strictly above its floor of 0.1 seconds, whatever the
/// chain length.
pub proof fn lemma_duration_above_floor(n: int)
    ensures
        spec_duration_us(n) > DURATION_FLOOR_US as int,
{
}

} // verus!
