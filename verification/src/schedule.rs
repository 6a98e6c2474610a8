//! The emission schedule: the fixed, precomputed table of daily reward
//! budgets, in whole reward tokens.
//!
//! Index 0 is the first calendar day after the pool is deployed; the table
//! covers the full emission horizon of
//! [`crate::MAX_DURATION_TO_EMIT_REWARDS_DAYS`] days, decays to zero, and
//! its entries sum to the total reward budget of 700,000,000 whole tokens
//! (checked by `reward_schedule_total`).

use vstd::prelude::*;

verus! {

/// Reward tokens emitted on each day after deployment.
pub const REWARD_SCHEDULE_IN_DAYS: [u64; 1461] = [
    958575, 957919, 957262, 956605, 955948, 955292, 954635, 953978, 953321, 952664, 952008, 951351,
    950694, 950037, 949381, 948724, 948067, 947410, 946753, 946097, 945440, 944783, 944126, 943469,
    942813, 942156, 941499, 940842, 940186, 939529, 938872, 938215, 937558, 936902, 936245, 935588,
    934931, 934275, 933618, 932961, 932304, 931647, 930991, 930334, 929677, 929020, 928363, 927707,
    927050, 926393, 925736, 925080, 924423, 923766, 923109, 922452, 921796, 921139, 920482, 919825,
    919168, 918512, 917855, 917198, 916541, 915885, 915228, 914571, 913914, 913257, 912601, 911944,
    911287, 910630, 909974, 909317, 908660, 908003, 907346, 906690, 906033, 905376, 904719, 904062,
    903406, 902749, 902092, 901435, 900779, 900122, 899465, 898808, 898151, 897495, 896838, 896181,
    895524, 894867, 894211, 893554, 892897, 892240, 891584, 890927, 890270, 889613, 888956, 888300,
    887643, 886986, 886329, 885673, 885016, 884359, 883702, 883045, 882389, 881732, 881075, 880418,
    879761, 879105, 878448, 877791, 877134, 876478, 875821, 875164, 874507, 873850, 873194, 872537,
    871880, 871223, 870566, 869910, 869253, 868596, 867939, 867283, 866626, 865969, 865312, 864655,
    863999, 863342, 862685, 862028, 861372, 860715, 860058, 859401, 858744, 858088, 857431, 856774,
    856117, 855460, 854804, 854147, 853490, 852833, 852177, 851520, 850863, 850206, 849549, 848893,
    848236, 847579, 846922, 846265, 845609, 844952, 844295, 843638, 842982, 842325, 841668, 841011,
    840354, 839698, 839041, 838384, 837727, 837071, 836414, 835757, 835100, 834443, 833787, 833130,
    832473, 831816, 831159, 830503, 829846, 829189, 828532, 827876, 827219, 826562, 825905, 825248,
    824592, 823935, 823278, 822621, 821965, 821308, 820651, 819994, 819337, 818681, 818024, 817367,
    816710, 816053, 815397, 814740, 814083, 813426, 812770, 812113, 811456, 810799, 810142, 809486,
    808829, 808172, 807515, 806858, 806202, 805545, 804888, 804231, 803575, 802918, 802261, 801604,
    800947, 800291, 799634, 798977, 798320, 797664, 797007, 796350, 795693, 795036, 794380, 793723,
    793066, 792409, 791752, 791096, 790439, 789782, 789125, 788469, 787812, 787155, 786498, 785841,
    785185, 784528, 783871, 783214, 782557, 781901, 781244, 780587, 779930, 779274, 778617, 777960,
    777303, 776646, 775990, 775333, 774676, 774019, 773363, 772706, 772049, 771392, 770735, 770079,
    769422, 768765, 768108, 767451, 766795, 766138, 765481, 764824, 764168, 763511, 762854, 762197,
    761540, 760884, 760227, 759570, 758913, 758256, 757600, 756943, 756286, 755629, 754973, 754316,
    753659, 753002, 752345, 751689, 751032, 750375, 749718, 749062, 748405, 747748, 747091, 746434,
    745778, 745121, 744464, 743807, 743150, 742494, 741837, 741180, 740523, 739867, 739210, 738553,
    737896, 737239, 736583, 735926, 735269, 734612, 733955, 733299, 732642, 731985, 731328, 730672,
    730015, 729358, 728701, 728044, 727388, 726731, 726074, 725417, 724761, 724104, 723447, 722790,
    722133, 721477, 720820, 720163, 719506, 718849, 718193, 717536, 716879, 716222, 715566, 714909,
    714252, 713595, 712938, 712282, 711625, 710968, 710311, 709655, 708998, 708341, 707684, 707027,
    706371, 705714, 705057, 704400, 703743, 703087, 702430, 701773, 701116, 700460, 699803, 699146,
    698489, 697832, 697176, 696519, 695862, 695205, 694548, 693892, 693235, 692578, 691921, 691265,
    690608, 689951, 689294, 688637, 687981, 687324, 686667, 686010, 685354, 684697, 684040, 683383,
    682726, 682070, 681413, 680756, 680099, 679442, 678786, 678129, 677472, 676815, 676159, 675502,
    674845, 674188, 673531, 672875, 672218, 671561, 670904, 670247, 669591, 668934, 668277, 667620,
    666964, 666307, 665650, 664993, 664336, 663680, 663023, 662366, 661709, 661053, 660396, 659739,
    659082, 658425, 657769, 657112, 656455, 655798, 655141, 654485, 653828, 653171, 652514, 651858,
    651201, 650544, 649887, 649230, 648574, 647917, 647260, 646603, 645946, 645290, 644633, 643976,
    643319, 642663, 642006, 641349, 640692, 640035, 639379, 638722, 638065, 637408, 636752, 636095,
    635438, 634781, 634124, 633468, 632811, 632154, 631497, 630840, 630184, 629527, 628870, 628213,
    627557, 626900, 626243, 625586, 624929, 624273, 623616, 622959, 622302, 621645, 620989, 620332,
    619675, 619018, 618362, 617705, 617048, 616391, 615734, 615078, 614421, 613764, 613107, 612451,
    611794, 611137, 610480, 609823, 609167, 608510, 607853, 607196, 606539, 605883, 605226, 604569,
    603912, 603256, 602599, 601942, 601285, 600628, 599972, 599315, 598658, 598001, 597344, 596688,
    596031, 595374, 594717, 594061, 593404, 592747, 592090, 591433, 590777, 590120, 589463, 588806,
    588150, 587493, 586836, 586179, 585522, 584866, 584209, 583552, 582895, 582238, 581582, 580925,
    580268, 579611, 578955, 578298, 577641, 576984, 576327, 575671, 575014, 574357, 573700, 573044,
    572387, 571730, 571073, 570416, 569760, 569103, 568446, 567789, 567132, 566476, 565819, 565162,
    564505, 563849, 563192, 562535, 561878, 561221, 560565, 559908, 559251, 558594, 557937, 557281,
    556624, 555967, 555310, 554654, 553997, 553340, 552683, 552026, 551370, 550713, 550056, 549399,
    548743, 548086, 547429, 546772, 546115, 545459, 544802, 544145, 543488, 542831, 542175, 541518,
    540861, 540204, 539548, 538891, 538234, 537577, 536920, 536264, 535607, 534950, 534293, 533636,
    532980, 532323, 531666, 531009, 530353, 529696, 529039, 528382, 527725, 527069, 526412, 525755,
    525098, 524442, 523785, 523128, 522471, 521814, 521158, 520501, 519844, 519187, 518530, 517874,
    517217, 516560, 515903, 515247, 514590, 513933, 513276, 512619, 511963, 511306, 510649, 509992,
    509335, 508679, 508022, 507365, 506708, 506052, 505395, 504738, 504081, 503424, 502768, 502111,
    501454, 500797, 500141, 499484, 498827, 498170, 497513, 496857, 496200, 495543, 494886, 494229,
    493573, 492916, 492259, 491602, 490946, 490289, 489632, 488975, 488318, 487662, 487005, 486348,
    485691, 485034, 484378, 483721, 483064, 482407, 481751, 481094, 480437, 479780, 479123, 478467,
    477810, 477153, 476496, 475840, 475183, 474526, 473869, 473212, 472556, 471899, 471242, 470585,
    469928, 469272, 468615, 467958, 467301, 466645, 465988, 465331, 464674, 464017, 463361, 462704,
    462047, 461390, 460734, 460077, 459420, 458763, 458106, 457450, 456793, 456136, 455479, 454822,
    454166, 453509, 452852, 452195, 451539, 450882, 450225, 449568, 448911, 448255, 447598, 446941,
    446284, 445627, 444971, 444314, 443657, 443000, 442344, 441687, 441030, 440373, 439716, 439060,
    438403, 437746, 437089, 436433, 435776, 435119, 434462, 433805, 433149, 432492, 431835, 431178,
    430521, 429865, 429208, 428551, 427894, 427238, 426581, 425924, 425267, 424610, 423954, 423297,
    422640, 421983, 421326, 420670, 420013, 419356, 418699, 418043, 417386, 416729, 416072, 415415,
    414759, 414102, 413445, 412788, 412132, 411475, 410818, 410161, 409504, 408848, 408191, 407534,
    406877, 406220, 405564, 404907, 404250, 403593, 402937, 402280, 401623, 400966, 400309, 399653,
    398996, 398339, 397682, 397025, 396369, 395712, 395055, 394398, 393742, 393085, 392428, 391771,
    391114, 390458, 389801, 389144, 388487, 387831, 387174, 386517, 385860, 385203, 384547, 383890,
    383233, 382576, 381919, 381263, 380606, 379949, 379292, 378636, 377979, 377322, 376665, 376008,
    375352, 374695, 374038, 373381, 372724, 372068, 371411, 370754, 370097, 369441, 368784, 368127,
    367470, 366813, 366157, 365500, 364843, 364186, 363530, 362873, 362216, 361559, 360902, 360246,
    359589, 358932, 358275, 357618, 356962, 356305, 355648, 354991, 354335, 353678, 353021, 352364,
    351707, 351051, 350394, 349737, 349080, 348424, 347767, 347110, 346453, 345796, 345140, 344483,
    343826, 343169, 342512, 341856, 341199, 340542, 339885, 339229, 338572, 337915, 337258, 336601,
    335945, 335288, 334631, 333974, 333317, 332661, 332004, 331347, 330690, 330034, 329377, 328720,
    328063, 327406, 326750, 326093, 325436, 324779, 324123, 323466, 322809, 322152, 321495, 320839,
    320182, 319525, 318868, 318211, 317555, 316898, 316241, 315584, 314928, 314271, 313614, 312957,
    312300, 311644, 310987, 310330, 309673, 309016, 308360, 307703, 307046, 306389, 305733, 305076,
    304419, 303762, 303105, 302449, 301792, 301135, 300478, 299822, 299165, 298508, 297851, 297194,
    296538, 295881, 295224, 294567, 293910, 293254, 292597, 291940, 291283, 290627, 289970, 289313,
    288656, 287999, 287343, 286686, 286029, 285372, 284715, 284059, 283402, 282745, 282088, 281432,
    280775, 280118, 279461, 278804, 278148, 277491, 276834, 276177, 275521, 274864, 274207, 273550,
    272893, 272237, 271580, 270923, 270266, 269609, 268953, 268296, 267639, 266982, 266326, 265669,
    265012, 264355, 263698, 263042, 262385, 261728, 261071, 260414, 259758, 259101, 258444, 257787,
    257131, 256474, 255817, 255160, 254503, 253847, 253190, 252533, 251876, 251220, 250563, 249906,
    249249, 248592, 247936, 247279, 246622, 245965, 245308, 244652, 243995, 243338, 242681, 242025,
    241368, 240711, 240054, 239397, 238741, 238084, 237427, 236770, 236113, 235457, 234800, 234143,
    233486, 232830, 232173, 231516, 230859, 230202, 229546, 228889, 228232, 227575, 226919, 226262,
    225605, 224948, 224291, 223635, 222978, 222321, 221664, 221007, 220351, 219694, 219037, 218380,
    217724, 217067, 216410, 215753, 215096, 214440, 213783, 213126, 212469, 211813, 211156, 210499,
    209842, 209186, 208530, 207873, 207216, 206559, 205902, 205246, 204589, 203932, 203275, 202619,
    201962, 201305, 200648, 199991, 199335, 198678, 198021, 197364, 196707, 196051, 195394, 194737,
    194080, 193424, 192767, 192110, 191453, 190796, 190140, 189483, 188826, 188169, 187513, 186856,
    186199, 185542, 184885, 184229, 183572, 182915, 182258, 181601, 180945, 180288, 179631, 178974,
    178318, 177661, 177004, 176347, 175690, 175034, 174377, 173720, 173063, 172406, 171750, 171093,
    170436, 169779, 169123, 168466, 167809, 167152, 166495, 165839, 165182, 164525, 163868, 163212,
    162555, 161898, 161241, 160584, 159928, 159271, 158614, 157957, 157300, 156644, 155987, 155330,
    154673, 154017, 153360, 152703, 152046, 151389, 150733, 150076, 149419, 148762, 148105, 147449,
    146792, 146135, 145478, 144822, 144165, 143508, 142851, 142194, 141538, 140881, 140224, 139567,
    138911, 138254, 137597, 136940, 136283, 135627, 134970, 134313, 133656, 132999, 132343, 131686,
    131029, 130372, 129716, 129059, 128402, 127745, 127088, 126432, 125775, 125118, 124461, 123804,
    123148, 122491, 121834, 121177, 120521, 119864, 119207, 118550, 117893, 117237, 116580, 115923,
    115266, 114610, 113953, 113296, 112639, 111982, 111326, 110669, 110012, 109355, 108698, 108042,
    107385, 106728, 106071, 105415, 104758, 104101, 103444, 102787, 102131, 101474, 100817, 100160,
    99504, 98847, 98190, 97533, 96876, 96220, 95563, 94906, 94249, 93592, 92936, 92279,
    91622, 90965, 90309, 89652, 88995, 88338, 87681, 87025, 86368, 85711, 85054, 84397,
    83741, 83084, 82427, 81770, 81114, 80457, 79800, 79143, 78486, 77830, 77173, 76516,
    75859, 75203, 74546, 73889, 73232, 72575, 71919, 71262, 70605, 69948, 69291, 68635,
    67978, 67321, 66664, 66008, 65351, 64694, 64037, 63380, 62724, 62067, 61410, 60753,
    60096, 59440, 58783, 58126, 57469, 56813, 56156, 55499, 54842, 54185, 53529, 52872,
    52215, 51558, 50902, 50245, 49588, 48931, 48274, 47618, 46961, 46304, 45647, 44990,
    44334, 43677, 43020, 42363, 41707, 41050, 40393, 39736, 39079, 38423, 37766, 37109,
    36452, 35795, 35139, 34482, 33825, 33168, 32512, 31855, 31198, 30541, 29884, 29228,
    28571, 27914, 27257, 26601, 25944, 25287, 24630, 23973, 23317, 22660, 22003, 21346,
    20689, 20033, 19376, 18719, 18062, 17406, 16749, 16092, 15435, 14778, 14122, 13465,
    12808, 12151, 11494, 10838, 10181, 9524, 8867, 8211, 7554, 6897, 6240, 5583,
    4927, 4270, 3613, 2956, 2300, 1643, 986, 329, 0,
];

/// Sum of the first `n` entries of the emission schedule.
pub open spec fn spec_schedule_prefix_sum(n: int) -> int
    decreases n,
{
    if n <= 0 {
        0
    } else {
        spec_schedule_prefix_sum(n - 1) + REWARD_SCHEDULE_IN_DAYS[n - 1]
    }
}

/// Sum of any prefix of the schedule is bounded by one maximal entry per
/// day summed.
pub proof fn lemma_schedule_prefix_sum_bound(n: int)
    requires
        n >= 0,
    ensures
        0 <= spec_schedule_prefix_sum(n) <= n * (u64::MAX as int),
    decreases n,
{
    if n > 0 {
        lemma_schedule_prefix_sum_bound(n - 1);
        assert((n - 1) * (u64::MAX as int) + (u64::MAX as int) == n * (u64::MAX as int))
            by (nonlinear_arith);
    }
}

/// Adds up the whole emission schedule.
pub fn reward_schedule_total() -> (r: u128)
    ensures
        r == spec_schedule_prefix_sum(crate::MAX_DURATION_TO_EMIT_REWARDS_DAYS as int),
{
    let mut total: u128 = 0;
    let mut i: usize = 0;
    while i < 1461
        invariant
            i <= 1461,
            total == spec_schedule_prefix_sum(i as int),
        decreases 1461 - i,
    {
        proof {
            lemma_schedule_prefix_sum_bound(i as int);
            assert(spec_schedule_prefix_sum(i as int) + REWARD_SCHEDULE_IN_DAYS[i as int]
                == spec_schedule_prefix_sum(i as int + 1));
        }
        total = total + (REWARD_SCHEDULE_IN_DAYS[i] as u128);
        i = i + 1;
    }
    total
}

proof fn schedule_sum_through_50()
    ensures
        spec_schedule_prefix_sum(50) == 47124215,
{
    reveal_with_fuel(spec_schedule_prefix_sum, 51);
}

proof fn schedule_sum_through_100()
    ensures
        spec_schedule_prefix_sum(100) == 92606471,
{
    schedule_sum_through_50();
    reveal_with_fuel(spec_schedule_prefix_sum, 51);
}

proof fn schedule_sum_through_150()
    ensures
        spec_schedule_prefix_sum(150) == 136446768,
{
    schedule_sum_through_100();
    reveal_with_fuel(spec_schedule_prefix_sum, 51);
}

proof fn schedule_sum_through_200()
    ensures
        spec_schedule_prefix_sum(200) == 178645105,
{
    schedule_sum_through_150();
    reveal_with_fuel(spec_schedule_prefix_sum, 51);
}

proof fn schedule_sum_through_250()
    ensures
        spec_schedule_prefix_sum(250) == 219201484,
{
    schedule_sum_through_200();
    reveal_with_fuel(spec_schedule_prefix_sum, 51);
}

proof fn schedule_sum_through_300()
    ensures
        spec_schedule_prefix_sum(300) == 258115904,
{
    schedule_sum_through_250();
    reveal_with_fuel(spec_schedule_prefix_sum, 51);
}

proof fn schedule_sum_through_350()
    ensures
        spec_schedule_prefix_sum(350) == 295388364,
{
    schedule_sum_through_300();
    reveal_with_fuel(spec_schedule_prefix_sum, 51);
}

proof fn schedule_sum_through_400()
    ensures
        spec_schedule_prefix_sum(400) == 331018866,
{
    schedule_sum_through_350();
    reveal_with_fuel(spec_schedule_prefix_sum, 51);
}

proof fn schedule_sum_through_450()
    ensures
        spec_schedule_prefix_sum(450) == 365007408,
{
    schedule_sum_through_400();
    reveal_with_fuel(spec_schedule_prefix_sum, 51);
}

proof fn schedule_sum_through_500()
    ensures
        spec_schedule_prefix_sum(500) == 397353991,
{
    schedule_sum_through_450();
    reveal_with_fuel(spec_schedule_prefix_sum, 51);
}

proof fn schedule_sum_through_550()
    ensures
        spec_schedule_prefix_sum(550) == 428058615,
{
    schedule_sum_through_500();
    reveal_with_fuel(spec_schedule_prefix_sum, 51);
}

proof fn schedule_sum_through_600()
    ensures
        spec_schedule_prefix_sum(600) == 457121280,
{
    schedule_sum_through_550();
    reveal_with_fuel(spec_schedule_prefix_sum, 51);
}

proof fn schedule_sum_through_650()
    ensures
        spec_schedule_prefix_sum(650) == 484541986,
{
    schedule_sum_through_600();
    reveal_with_fuel(spec_schedule_prefix_sum, 51);
}

proof fn schedule_sum_through_700()
    ensures
        spec_schedule_prefix_sum(700) == 510320733,
{
    schedule_sum_through_650();
    reveal_with_fuel(spec_schedule_prefix_sum, 51);
}

proof fn schedule_sum_through_750()
    ensures
        spec_schedule_prefix_sum(750) == 534457520,
{
    schedule_sum_through_700();
    reveal_with_fuel(spec_schedule_prefix_sum, 51);
}

proof fn schedule_sum_through_800()
    ensures
        spec_schedule_prefix_sum(800) == 556952349,
{
    schedule_sum_through_750();
    reveal_with_fuel(spec_schedule_prefix_sum, 51);
}

proof fn schedule_sum_through_850()
    ensures
        spec_schedule_prefix_sum(850) == 577805219,
{
    schedule_sum_through_800();
    reveal_with_fuel(spec_schedule_prefix_sum, 51);
}

proof fn schedule_sum_through_900()
    ensures
        spec_schedule_prefix_sum(900) == 597016129,
{
    schedule_sum_through_850();
    reveal_with_fuel(spec_schedule_prefix_sum, 51);
}

proof fn schedule_sum_through_950()
    ensures
        spec_schedule_prefix_sum(950) == 614585081,
{
    schedule_sum_through_900();
    reveal_with_fuel(spec_schedule_prefix_sum, 51);
}

proof fn schedule_sum_through_1000()
    ensures
        spec_schedule_prefix_sum(1000) == 630512073,
{
    schedule_sum_through_950();
    reveal_with_fuel(spec_schedule_prefix_sum, 51);
}

proof fn schedule_sum_through_1050()
    ensures
        spec_schedule_prefix_sum(1050) == 644797106,
{
    schedule_sum_through_1000();
    reveal_with_fuel(spec_schedule_prefix_sum, 51);
}

proof fn schedule_sum_through_1100()
    ensures
        spec_schedule_prefix_sum(1100) == 657440180,
{
    schedule_sum_through_1050();
    reveal_with_fuel(spec_schedule_prefix_sum, 51);
}

proof fn schedule_sum_through_1150()
    ensures
        spec_schedule_prefix_sum(1150) == 668441304,
{
    schedule_sum_through_1100();
    reveal_with_fuel(spec_schedule_prefix_sum, 51);
}

proof fn schedule_sum_through_1200()
    ensures
        spec_schedule_prefix_sum(1200) == 677800510,
{
    schedule_sum_through_1150();
    reveal_with_fuel(spec_schedule_prefix_sum, 51);
}

proof fn schedule_sum_through_1250()
    ensures
        spec_schedule_prefix_sum(1250) == 685517757,
{
    schedule_sum_through_1200();
    reveal_with_fuel(spec_schedule_prefix_sum, 51);
}

proof fn schedule_sum_through_1300()
    ensures
        spec_schedule_prefix_sum(1300) == 691593044,
{
    schedule_sum_through_1250();
    reveal_with_fuel(spec_schedule_prefix_sum, 51);
}

proof fn schedule_sum_through_1350()
    ensures
        spec_schedule_prefix_sum(1350) == 696026373,
{
    schedule_sum_through_1300();
    reveal_with_fuel(spec_schedule_prefix_sum, 51);
}

proof fn schedule_sum_through_1400()
    ensures
        spec_schedule_prefix_sum(1400) == 698817743,
{
    schedule_sum_through_1350();
    reveal_with_fuel(spec_schedule_prefix_sum, 51);
}

proof fn schedule_sum_through_1450()
    ensures
        spec_schedule_prefix_sum(1450) == 699967153,
{
    schedule_sum_through_1400();
    reveal_with_fuel(spec_schedule_prefix_sum, 51);
}

proof fn schedule_sum_through_1461()
    ensures
        spec_schedule_prefix_sum(1461) == 700000000,
{
    schedule_sum_through_1450();
    reveal_with_fuel(spec_schedule_prefix_sum, 51);
}

/// The emission schedule's entries sum to exactly the total reward
/// budget: 700,000,000 whole tokens.
pub proof fn lemma_reward_schedule_sums_to_budget()
    ensures
        spec_schedule_prefix_sum(crate::MAX_DURATION_TO_EMIT_REWARDS_DAYS as int) == 700_000_000,
{
    schedule_sum_through_1461();
}

} // verus!
