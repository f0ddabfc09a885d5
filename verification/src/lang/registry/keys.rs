//! The alpha-3 and `Preferred-Value` rows, read one by one: each key stands for its row through a
//! number the row's text determines, which is what lets a value be shown to be no key at all.
use vstd::prelude::*;
use super::{paired, lemma_paired};
use super::table::{ALPHA3, LANGUAGE_PREFERRED};
use crate::parse::text_key;
use crate::text::is_lower;

verus! {

/// The alpha-3 row whose code has the key `k`, or `-1` where no code has it.
spec fn alpha3_row(k: int) -> int {
    if k == 7561826 {
        0
    } else if k == 7103330 {
        1
    } else if k == 7563106 {
        2
    } else if k == 6450274 {
        3
    } else if k == 6516066 {
        4
    } else if k == 6909538 {
        5
    } else if k == 6452066 {
        6
    } else if k == 6845282 {
        7
    } else if k == 7238498 {
        8
    } else if k == 7238754 {
        9
    } else if k == 6453090 {
        10
    } else if k == 6715234 {
        11
    } else if k == 7240290 {
        12
    } else if k == 6716258 {
        13
    } else if k == 7103075 {
        14
    } else if k == 7234147 {
        15
    } else if k == 7496291 {
        16
    } else if k == 7169635 {
        17
    } else if k == 7300707 {
        18
    } else if k == 7629411 {
        19
    } else if k == 6647907 {
        20
    } else if k == 7630947 {
        21
    } else if k == 6714211 {
        22
    } else if k == 7173731 {
        23
    } else if k == 7566947 {
        24
    } else if k == 7692900 {
        25
    } else if k == 7628388 {
        26
    } else if k == 6449508 {
        27
    } else if k == 6711652 {
        28
    } else if k == 6973796 {
        29
    } else if k == 7760228 {
        30
    } else if k == 7825764 {
        31
    } else if k == 7565412 {
        32
    } else if k == 7630948 {
        33
    } else if k == 6714212 {
        34
    } else if k == 7240292 {
        35
    } else if k == 6716260 {
        36
    } else if k == 7299685 {
        37
    } else if k == 7759461 {
        38
    } else if k == 7826021 {
        39
    } else if k == 7698021 {
        40
    } else if k == 7371621 {
        41
    } else if k == 7171430 {
        42
    } else if k == 6844262 {
        43
    } else if k == 7369062 {
        44
    } else if k == 7697510 {
        45
    } else if k == 7632486 {
        46
    } else if k == 6715494 {
        47
    } else if k == 7365223 {
        48
    } else if k == 7627367 {
        49
    } else if k == 7039591 {
        50
    } else if k == 7301735 {
        51
    } else if k == 6452071 {
        52
    } else if k == 6714215 {
        53
    } else if k == 8024935 {
        54
    } else if k == 7173735 {
        55
    } else if k == 7366248 {
        56
    } else if k == 7562856 {
        57
    } else if k == 6450536 {
        58
    } else if k == 6712680 {
        59
    } else if k == 6843752 {
        60
    } else if k == 7826792 {
        61
    } else if k == 6714216 {
        62
    } else if k == 7304040 {
        63
    } else if k == 7042664 {
        64
    } else if k == 7692905 {
        65
    } else if k == 7758441 {
        66
    } else if k == 6514281 {
        67
    } else if k == 7562857 {
        68
    } else if k == 7301737 {
        69
    } else if k == 7368297 {
        70
    } else if k == 7828329 {
        71
    } else if k == 7304809 {
        72
    } else if k == 6716009 {
        73
    } else if k == 7365482 {
        74
    } else if k == 6710378 {
        75
    } else if k == 7365994 {
        76
    } else if k == 6974058 {
        77
    } else if k == 7761002 {
        78
    } else if k == 6712682 {
        79
    } else if k == 6451050 {
        80
    } else if k == 6647658 {
        81
    } else if k == 7106922 {
        82
    } else if k == 7173226 {
        83
    } else if k == 6452586 {
        84
    } else if k == 7823979 {
        85
    } else if k == 7303531 {
        86
    } else if k == 7168620 {
        87
    } else if k == 7299692 {
        88
    } else if k == 7627372 {
        89
    } else if k == 7692908 {
        90
    } else if k == 7758444 {
        91
    } else if k == 8086124 {
        92
    } else if k == 7235948 {
        93
    } else if k == 7105132 {
        94
    } else if k == 7301740 {
        95
    } else if k == 7563884 {
        96
    } else if k == 7237740 {
        97
    } else if k == 7303276 {
        98
    } else if k == 7565420 {
        99
    } else if k == 6452844 {
        100
    } else if k == 7566956 {
        101
    } else if k == 7365229 {
        102
    } else if k == 7692909 {
        103
    } else if k == 7823981 {
        104
    } else if k == 7236205 {
        105
    } else if k == 7301741 {
        106
    } else if k == 7694957 {
        107
    } else if k == 8090989 {
        108
    } else if k == 6518381 {
        109
    } else if k == 6846061 {
        110
    } else if k == 6578798 {
        111
    } else if k == 6906478 {
        112
    } else if k == 7168622 {
        113
    } else if k == 7365230 {
        114
    } else if k == 7561838 {
        115
    } else if k == 8020590 {
        116
    } else if k == 6646894 {
        117
    } else if k == 6843758 {
        118
    } else if k == 7695726 {
        119
    } else if k == 7303278 {
        120
    } else if k == 6976366 {
        121
    } else if k == 6452334 {
        122
    } else if k == 6453870 {
        123
    } else if k == 7758447 {
        124
    } else if k == 7823983 {
        125
    } else if k == 7168879 {
        126
    } else if k == 6710639 {
        127
    } else if k == 7365999 {
        128
    } else if k == 7431791 {
        129
    } else if k == 6647151 {
        130
    } else if k == 7368559 {
        131
    } else if k == 6516847 {
        132
    } else if k == 7565423 {
        133
    } else if k == 6453871 {
        134
    } else if k == 6972528 {
        135
    } else if k == 6974320 {
        136
    } else if k == 6976368 {
        137
    } else if k == 7238512 {
        138
    } else if k == 7631984 {
        139
    } else if k == 7299697 {
        140
    } else if k == 7562865 {
        141
    } else if k == 6974833 {
        142
    } else if k == 7172209 {
        143
    } else if k == 7565425 {
        144
    } else if k == 7632497 {
        145
    } else if k == 6714994 {
        146
    } else if k == 6910067 {
        147
    } else if k == 7303283 {
        148
    } else if k == 7239283 {
        149
    } else if k == 7304819 {
        150
    } else if k == 7632499 {
        151
    } else if k == 6840948 {
        152
    } else if k == 7299700 {
        153
    } else if k == 7301748 {
        154
    } else if k == 7105908 {
        155
    } else if k == 7368052 {
        156
    } else if k == 7826804 {
        157
    } else if k == 6712948 {
        158
    } else if k == 7368308 {
        159
    } else if k == 6451060 {
        160
    } else if k == 6647668 {
        161
    } else if k == 7237748 {
        162
    } else if k == 7696500 {
        163
    } else if k == 6451572 {
        164
    } else if k == 6976116 {
        165
    } else if k == 6648692 {
        166
    } else if k == 7435124 {
        167
    } else if k == 7894132 {
        168
    } else if k == 7304820 {
        169
    } else if k == 6453364 {
        170
    } else if k == 6715508 {
        171
    } else if k == 6906485 {
        172
    } else if k == 7234165 {
        173
    } else if k == 7692917 {
        174
    } else if k == 7169653 {
        175
    } else if k == 7104629 {
        176
    } else if k == 7170165 {
        177
    } else if k == 6449525 {
        178
    } else if k == 6515317 {
        179
    } else if k == 7563893 {
        180
    } else if k == 7303285 {
        181
    } else if k == 7304309 {
        182
    } else if k == 7369845 {
        183
    } else if k == 7108213 {
        184
    } else if k == 7566965 {
        185
    } else if k == 6977653 {
        186
    } else if k == 6842998 {
        187
    } else if k == 7564406 {
        188
    } else if k == 6648694 {
        189
    } else if k == 6519670 {
        190
    } else if k == 7300727 {
        191
    } else if k == 6711927 {
        192
    } else if k == 7172215 {
        193
    } else if k == 7169656 {
        194
    } else if k == 7302520 {
        195
    } else if k == 7172216 {
        196
    } else if k == 7367033 {
        197
    } else if k == 6646394 {
        198
    } else if k == 7565434 {
        199
    } else if k == 6449531 {
        200
    } else if k == 7367035 {
        201
    } else if k == 7173755 {
        202
    } else {
        -1
    }
}

/// The `Preferred-Value` row whose subtag has the key `k`, or `-1` where no subtag has it.
spec fn preferred_row(k: int) -> int {
    if k == 7234146 {
        0
    } else if k == 7431522 {
        1
    } else if k == 7433058 {
        2
    } else if k == 7695202 {
        3
    } else if k == 6648930 {
        4
    } else if k == 6714978 {
        5
    } else if k == 7961186 {
        6
    } else if k == 7235683 {
        7
    } else if k == 26979 {
        8
    } else if k == 6580835 {
        9
    } else if k == 6646627 {
        10
    } else if k == 6843747 {
        11
    } else if k == 7496804 {
        12
    } else if k == 7564132 {
        13
    } else if k == 6450276 {
        14
    } else if k == 7106148 {
        15
    } else if k == 8024164 {
        16
    } else if k == 7762532 {
        17
    } else if k == 7104101 {
        18
    } else if k == 7694949 {
        19
    } else if k == 6910821 {
        20
    } else if k == 7566181 {
        21
    } else if k == 7893861 {
        22
    } else if k == 7823976 {
        23
    } else if k == 7956328 {
        24
    } else if k == 7301224 {
        25
    } else if k == 6974824 {
        26
    } else if k == 6976872 {
        27
    } else if k == 7829096 {
        28
    } else if k == 7566185 {
        29
    } else if k == 6972266 {
        30
    } else if k == 7892330 {
        31
    } else if k == 28522 {
        32
    } else if k == 30826 {
        33
    } else if k == 6841963 {
        34
    } else if k == 27243 {
        35
    } else if k == 30827 {
        36
    } else if k == 6580332 {
        37
    } else if k == 6908012 {
        38
    } else if k == 7235692 {
        39
    } else if k == 7041132 {
        40
    } else if k == 7238508 {
        41
    } else if k == 7566700 {
        42
    } else if k == 7632748 {
        43
    } else if k == 7501932 {
        44
    } else if k == 6715756 {
        45
    } else if k == 7174508 {
        46
    } else if k == 7043948 {
        47
    } else if k == 7699308 {
        48
    } else if k == 7103085 {
        49
    } else if k == 6974061 {
        50
    } else if k == 7368045 {
        51
    } else if k == 7237229 {
        52
    } else if k == 6841966 {
        53
    } else if k == 28782 {
        54
    } else if k == 6648686 {
        55
    } else if k == 7697518 {
        56
    } else if k == 7043182 {
        57
    } else if k == 6650478 {
        58
    } else if k == 7699054 {
        59
    } else if k == 6644335 {
        60
    } else if k == 7431279 {
        61
    } else if k == 7630703 {
        62
    } else if k == 7958383 {
        63
    } else if k == 7237743 {
        64
    } else if k == 6714735 {
        65
    } else if k == 7632239 {
        66
    } else if k == 7764335 {
        67
    } else if k == 7304816 {
        68
    } else if k == 7692913 {
        69
    } else if k == 7562353 {
        70
    } else if k == 6581873 {
        71
    } else if k == 7106161 {
        72
    } else if k == 7761521 {
        73
    } else if k == 6451569 {
        74
    } else if k == 7565681 {
        75
    } else if k == 7435121 {
        76
    } else if k == 8024945 {
        77
    } else if k == 8091249 {
        78
    } else if k == 6448244 {
        79
    } else if k == 7170420 {
        80
    } else if k == 7105652 {
        81
    } else if k == 6647412 {
        82
    } else if k == 6516596 {
        83
    } else if k == 6650740 {
        84
    } else if k == 7759221 {
        85
    } else if k == 6580597 {
        86
    } else if k == 7891317 {
        87
    } else if k == 7956853 {
        88
    } else if k == 6711925 {
        89
    } else if k == 7105653 {
        90
    } else if k == 7892341 {
        91
    } else if k == 7106165 {
        92
    } else if k == 7433845 {
        93
    } else if k == 6713205 {
        94
    } else if k == 6778741 {
        95
    } else if k == 7893365 {
        96
    } else if k == 6780021 {
        97
    } else if k == 7106678 {
        98
    } else if k == 6447993 {
        99
    } else if k == 6449785 {
        100
    } else if k == 6909049 {
        101
    } else if k == 7500665 {
        102
    } else if k == 7631993 {
        103
    } else if k == 6644602 {
        104
    } else if k == 6450810 {
        105
    } else if k == 7695994 {
        106
    } else if k == 7172218 {
        107
    } else if k == 7630970 {
        108
    } else if k == 7763578 {
        109
    } else if k == 7563899 {
        110
    } else if k == 6515835 {
        111
    } else {
        -1
    }
}

#[verifier::rlimit(100)]
proof fn lemma_alpha3_keys()
    ensures
        forall|i: int| 0 <= i < ALPHA3@.len() ==> {
            let row = #[trigger] ALPHA3@[i];
            &&& alpha3_row(text_key(row.0@)) == i
            &&& row.0@.len() == 3
            &&& row.1@.len() == 2
            &&& is_lower(row.1@[0])
            &&& is_lower(row.1@[1])
        },
{
    reveal_strlit("aar");
    reveal_strlit("aa");
    reveal_strlit("abk");
    reveal_strlit("ab");
    reveal_strlit("afr");
    reveal_strlit("af");
    reveal_strlit("aka");
    reveal_strlit("ak");
    reveal_strlit("alb");
    reveal_strlit("sq");
    reveal_strlit("amh");
    reveal_strlit("am");
    reveal_strlit("ara");
    reveal_strlit("ar");
    reveal_strlit("arg");
    reveal_strlit("an");
    reveal_strlit("arm");
    reveal_strlit("hy");
    reveal_strlit("asm");
    reveal_strlit("as");
    reveal_strlit("ava");
    reveal_strlit("av");
    reveal_strlit("ave");
    reveal_strlit("ae");
    reveal_strlit("aym");
    reveal_strlit("ay");
    reveal_strlit("aze");
    reveal_strlit("az");
    reveal_strlit("bak");
    reveal_strlit("ba");
    reveal_strlit("bam");
    reveal_strlit("bm");
    reveal_strlit("baq");
    reveal_strlit("eu");
    reveal_strlit("bel");
    reveal_strlit("be");
    reveal_strlit("ben");
    reveal_strlit("bn");
    reveal_strlit("bis");
    reveal_strlit("bi");
    reveal_strlit("bod");
    reveal_strlit("bo");
    reveal_strlit("bos");
    reveal_strlit("bs");
    reveal_strlit("bre");
    reveal_strlit("br");
    reveal_strlit("bul");
    reveal_strlit("bg");
    reveal_strlit("bur");
    reveal_strlit("my");
    reveal_strlit("cat");
    reveal_strlit("ca");
    reveal_strlit("ces");
    reveal_strlit("cs");
    reveal_strlit("cha");
    reveal_strlit("ch");
    reveal_strlit("che");
    reveal_strlit("ce");
    reveal_strlit("chi");
    reveal_strlit("zh");
    reveal_strlit("chu");
    reveal_strlit("cu");
    reveal_strlit("chv");
    reveal_strlit("cv");
    reveal_strlit("cor");
    reveal_strlit("kw");
    reveal_strlit("cos");
    reveal_strlit("co");
    reveal_strlit("cre");
    reveal_strlit("cr");
    reveal_strlit("cym");
    reveal_strlit("cy");
    reveal_strlit("cze");
    reveal_strlit("dan");
    reveal_strlit("da");
    reveal_strlit("deu");
    reveal_strlit("de");
    reveal_strlit("div");
    reveal_strlit("dv");
    reveal_strlit("dut");
    reveal_strlit("nl");
    reveal_strlit("dzo");
    reveal_strlit("dz");
    reveal_strlit("ell");
    reveal_strlit("el");
    reveal_strlit("eng");
    reveal_strlit("en");
    reveal_strlit("epo");
    reveal_strlit("eo");
    reveal_strlit("est");
    reveal_strlit("et");
    reveal_strlit("eus");
    reveal_strlit("ewe");
    reveal_strlit("ee");
    reveal_strlit("fao");
    reveal_strlit("fo");
    reveal_strlit("fas");
    reveal_strlit("fa");
    reveal_strlit("fij");
    reveal_strlit("fj");
    reveal_strlit("fin");
    reveal_strlit("fi");
    reveal_strlit("fra");
    reveal_strlit("fr");
    reveal_strlit("fre");
    reveal_strlit("fry");
    reveal_strlit("fy");
    reveal_strlit("ful");
    reveal_strlit("ff");
    reveal_strlit("geo");
    reveal_strlit("ka");
    reveal_strlit("ger");
    reveal_strlit("gla");
    reveal_strlit("gd");
    reveal_strlit("gle");
    reveal_strlit("ga");
    reveal_strlit("glg");
    reveal_strlit("gl");
    reveal_strlit("glv");
    reveal_strlit("gv");
    reveal_strlit("gre");
    reveal_strlit("grn");
    reveal_strlit("gn");
    reveal_strlit("guj");
    reveal_strlit("gu");
    reveal_strlit("hat");
    reveal_strlit("ht");
    reveal_strlit("hau");
    reveal_strlit("ha");
    reveal_strlit("heb");
    reveal_strlit("he");
    reveal_strlit("her");
    reveal_strlit("hz");
    reveal_strlit("hin");
    reveal_strlit("hi");
    reveal_strlit("hmo");
    reveal_strlit("ho");
    reveal_strlit("hrv");
    reveal_strlit("hr");
    reveal_strlit("hun");
    reveal_strlit("hu");
    reveal_strlit("hye");
    reveal_strlit("ibo");
    reveal_strlit("ig");
    reveal_strlit("ice");
    reveal_strlit("is");
    reveal_strlit("ido");
    reveal_strlit("io");
    reveal_strlit("iii");
    reveal_strlit("ii");
    reveal_strlit("iku");
    reveal_strlit("iu");
    reveal_strlit("ile");
    reveal_strlit("ie");
    reveal_strlit("ina");
    reveal_strlit("ia");
    reveal_strlit("ind");
    reveal_strlit("id");
    reveal_strlit("ipk");
    reveal_strlit("ik");
    reveal_strlit("isl");
    reveal_strlit("ita");
    reveal_strlit("it");
    reveal_strlit("jav");
    reveal_strlit("jv");
    reveal_strlit("jpn");
    reveal_strlit("ja");
    reveal_strlit("kal");
    reveal_strlit("kl");
    reveal_strlit("kan");
    reveal_strlit("kn");
    reveal_strlit("kas");
    reveal_strlit("ks");
    reveal_strlit("kat");
    reveal_strlit("kau");
    reveal_strlit("kr");
    reveal_strlit("kaz");
    reveal_strlit("kk");
    reveal_strlit("khm");
    reveal_strlit("km");
    reveal_strlit("kik");
    reveal_strlit("ki");
    reveal_strlit("kin");
    reveal_strlit("rw");
    reveal_strlit("kir");
    reveal_strlit("ky");
    reveal_strlit("kom");
    reveal_strlit("kv");
    reveal_strlit("kon");
    reveal_strlit("kg");
    reveal_strlit("kor");
    reveal_strlit("ko");
    reveal_strlit("kua");
    reveal_strlit("kj");
    reveal_strlit("kur");
    reveal_strlit("ku");
    reveal_strlit("lao");
    reveal_strlit("lo");
    reveal_strlit("lat");
    reveal_strlit("la");
    reveal_strlit("lav");
    reveal_strlit("lv");
    reveal_strlit("lim");
    reveal_strlit("li");
    reveal_strlit("lin");
    reveal_strlit("ln");
    reveal_strlit("lit");
    reveal_strlit("lt");
    reveal_strlit("ltz");
    reveal_strlit("lb");
    reveal_strlit("lub");
    reveal_strlit("lu");
    reveal_strlit("lug");
    reveal_strlit("lg");
    reveal_strlit("mac");
    reveal_strlit("mk");
    reveal_strlit("mah");
    reveal_strlit("mh");
    reveal_strlit("mal");
    reveal_strlit("ml");
    reveal_strlit("mao");
    reveal_strlit("mi");
    reveal_strlit("mar");
    reveal_strlit("mr");
    reveal_strlit("may");
    reveal_strlit("ms");
    reveal_strlit("mkd");
    reveal_strlit("mlg");
    reveal_strlit("mg");
    reveal_strlit("mlt");
    reveal_strlit("mt");
    reveal_strlit("mon");
    reveal_strlit("mn");
    reveal_strlit("mri");
    reveal_strlit("msa");
    reveal_strlit("mya");
    reveal_strlit("nau");
    reveal_strlit("na");
    reveal_strlit("nav");
    reveal_strlit("nv");
    reveal_strlit("nbl");
    reveal_strlit("nr");
    reveal_strlit("nde");
    reveal_strlit("nd");
    reveal_strlit("ndo");
    reveal_strlit("ng");
    reveal_strlit("nep");
    reveal_strlit("ne");
    reveal_strlit("nld");
    reveal_strlit("nno");
    reveal_strlit("nn");
    reveal_strlit("nob");
    reveal_strlit("nb");
    reveal_strlit("nor");
    reveal_strlit("no");
    reveal_strlit("nya");
    reveal_strlit("ny");
    reveal_strlit("oci");
    reveal_strlit("oc");
    reveal_strlit("oji");
    reveal_strlit("oj");
    reveal_strlit("ori");
    reveal_strlit("or");
    reveal_strlit("orm");
    reveal_strlit("om");
    reveal_strlit("oss");
    reveal_strlit("os");
    reveal_strlit("pan");
    reveal_strlit("pa");
    reveal_strlit("per");
    reveal_strlit("pli");
    reveal_strlit("pi");
    reveal_strlit("pol");
    reveal_strlit("pl");
    reveal_strlit("por");
    reveal_strlit("pt");
    reveal_strlit("pus");
    reveal_strlit("ps");
    reveal_strlit("que");
    reveal_strlit("qu");
    reveal_strlit("roh");
    reveal_strlit("rm");
    reveal_strlit("ron");
    reveal_strlit("ro");
    reveal_strlit("rum");
    reveal_strlit("run");
    reveal_strlit("rn");
    reveal_strlit("rus");
    reveal_strlit("ru");
    reveal_strlit("sag");
    reveal_strlit("sg");
    reveal_strlit("san");
    reveal_strlit("sa");
    reveal_strlit("sin");
    reveal_strlit("si");
    reveal_strlit("slk");
    reveal_strlit("sk");
    reveal_strlit("slo");
    reveal_strlit("slv");
    reveal_strlit("sl");
    reveal_strlit("sme");
    reveal_strlit("se");
    reveal_strlit("smo");
    reveal_strlit("sm");
    reveal_strlit("sna");
    reveal_strlit("sn");
    reveal_strlit("snd");
    reveal_strlit("sd");
    reveal_strlit("som");
    reveal_strlit("so");
    reveal_strlit("sot");
    reveal_strlit("st");
    reveal_strlit("spa");
    reveal_strlit("es");
    reveal_strlit("sqi");
    reveal_strlit("srd");
    reveal_strlit("sc");
    reveal_strlit("srp");
    reveal_strlit("sr");
    reveal_strlit("ssw");
    reveal_strlit("ss");
    reveal_strlit("sun");
    reveal_strlit("su");
    reveal_strlit("swa");
    reveal_strlit("sw");
    reveal_strlit("swe");
    reveal_strlit("sv");
    reveal_strlit("tah");
    reveal_strlit("ty");
    reveal_strlit("tam");
    reveal_strlit("ta");
    reveal_strlit("tat");
    reveal_strlit("tt");
    reveal_strlit("tel");
    reveal_strlit("te");
    reveal_strlit("tgk");
    reveal_strlit("tg");
    reveal_strlit("tgl");
    reveal_strlit("tl");
    reveal_strlit("tha");
    reveal_strlit("th");
    reveal_strlit("tib");
    reveal_strlit("tir");
    reveal_strlit("ti");
    reveal_strlit("ton");
    reveal_strlit("to");
    reveal_strlit("tsn");
    reveal_strlit("tn");
    reveal_strlit("tso");
    reveal_strlit("ts");
    reveal_strlit("tuk");
    reveal_strlit("tk");
    reveal_strlit("tur");
    reveal_strlit("tr");
    reveal_strlit("twi");
    reveal_strlit("tw");
    reveal_strlit("uig");
    reveal_strlit("ug");
    reveal_strlit("ukr");
    reveal_strlit("uk");
    reveal_strlit("urd");
    reveal_strlit("ur");
    reveal_strlit("uzb");
    reveal_strlit("uz");
    reveal_strlit("ven");
    reveal_strlit("ve");
    reveal_strlit("vie");
    reveal_strlit("vi");
    reveal_strlit("vol");
    reveal_strlit("vo");
    reveal_strlit("wel");
    reveal_strlit("wln");
    reveal_strlit("wa");
    reveal_strlit("wol");
    reveal_strlit("wo");
    reveal_strlit("xho");
    reveal_strlit("xh");
    reveal_strlit("yid");
    reveal_strlit("yi");
    reveal_strlit("yor");
    reveal_strlit("yo");
    reveal_strlit("zha");
    reveal_strlit("za");
    reveal_strlit("zho");
    reveal_strlit("zul");
    reveal_strlit("zu");
    let t = ALPHA3@;
    assert(t.len() == 203);
    assert forall|i: int| 0 <= i < t.len() implies {
        let row = #[trigger] t[i];
        &&& alpha3_row(text_key(row.0@)) == i
        &&& row.0@.len() == 3
        &&& row.1@.len() == 2
        &&& is_lower(row.1@[0])
        &&& is_lower(row.1@[1])
    } by {
        if i == 0 {
            assert(text_key(t[0].0@) == 7561826);
        } else if i == 1 {
            assert(text_key(t[1].0@) == 7103330);
        } else if i == 2 {
            assert(text_key(t[2].0@) == 7563106);
        } else if i == 3 {
            assert(text_key(t[3].0@) == 6450274);
        } else if i == 4 {
            assert(text_key(t[4].0@) == 6516066);
        } else if i == 5 {
            assert(text_key(t[5].0@) == 6909538);
        } else if i == 6 {
            assert(text_key(t[6].0@) == 6452066);
        } else if i == 7 {
            assert(text_key(t[7].0@) == 6845282);
        } else if i == 8 {
            assert(text_key(t[8].0@) == 7238498);
        } else if i == 9 {
            assert(text_key(t[9].0@) == 7238754);
        } else if i == 10 {
            assert(text_key(t[10].0@) == 6453090);
        } else if i == 11 {
            assert(text_key(t[11].0@) == 6715234);
        } else if i == 12 {
            assert(text_key(t[12].0@) == 7240290);
        } else if i == 13 {
            assert(text_key(t[13].0@) == 6716258);
        } else if i == 14 {
            assert(text_key(t[14].0@) == 7103075);
        } else if i == 15 {
            assert(text_key(t[15].0@) == 7234147);
        } else if i == 16 {
            assert(text_key(t[16].0@) == 7496291);
        } else if i == 17 {
            assert(text_key(t[17].0@) == 7169635);
        } else if i == 18 {
            assert(text_key(t[18].0@) == 7300707);
        } else if i == 19 {
            assert(text_key(t[19].0@) == 7629411);
        } else if i == 20 {
            assert(text_key(t[20].0@) == 6647907);
        } else if i == 21 {
            assert(text_key(t[21].0@) == 7630947);
        } else if i == 22 {
            assert(text_key(t[22].0@) == 6714211);
        } else if i == 23 {
            assert(text_key(t[23].0@) == 7173731);
        } else if i == 24 {
            assert(text_key(t[24].0@) == 7566947);
        } else if i == 25 {
            assert(text_key(t[25].0@) == 7692900);
        } else if i == 26 {
            assert(text_key(t[26].0@) == 7628388);
        } else if i == 27 {
            assert(text_key(t[27].0@) == 6449508);
        } else if i == 28 {
            assert(text_key(t[28].0@) == 6711652);
        } else if i == 29 {
            assert(text_key(t[29].0@) == 6973796);
        } else if i == 30 {
            assert(text_key(t[30].0@) == 7760228);
        } else if i == 31 {
            assert(text_key(t[31].0@) == 7825764);
        } else if i == 32 {
            assert(text_key(t[32].0@) == 7565412);
        } else if i == 33 {
            assert(text_key(t[33].0@) == 7630948);
        } else if i == 34 {
            assert(text_key(t[34].0@) == 6714212);
        } else if i == 35 {
            assert(text_key(t[35].0@) == 7240292);
        } else if i == 36 {
            assert(text_key(t[36].0@) == 6716260);
        } else if i == 37 {
            assert(text_key(t[37].0@) == 7299685);
        } else if i == 38 {
            assert(text_key(t[38].0@) == 7759461);
        } else if i == 39 {
            assert(text_key(t[39].0@) == 7826021);
        } else if i == 40 {
            assert(text_key(t[40].0@) == 7698021);
        } else if i == 41 {
            assert(text_key(t[41].0@) == 7371621);
        } else if i == 42 {
            assert(text_key(t[42].0@) == 7171430);
        } else if i == 43 {
            assert(text_key(t[43].0@) == 6844262);
        } else if i == 44 {
            assert(text_key(t[44].0@) == 7369062);
        } else if i == 45 {
            assert(text_key(t[45].0@) == 7697510);
        } else if i == 46 {
            assert(text_key(t[46].0@) == 7632486);
        } else if i == 47 {
            assert(text_key(t[47].0@) == 6715494);
        } else if i == 48 {
            assert(text_key(t[48].0@) == 7365223);
        } else if i == 49 {
            assert(text_key(t[49].0@) == 7627367);
        } else if i == 50 {
            assert(text_key(t[50].0@) == 7039591);
        } else if i == 51 {
            assert(text_key(t[51].0@) == 7301735);
        } else if i == 52 {
            assert(text_key(t[52].0@) == 6452071);
        } else if i == 53 {
            assert(text_key(t[53].0@) == 6714215);
        } else if i == 54 {
            assert(text_key(t[54].0@) == 8024935);
        } else if i == 55 {
            assert(text_key(t[55].0@) == 7173735);
        } else if i == 56 {
            assert(text_key(t[56].0@) == 7366248);
        } else if i == 57 {
            assert(text_key(t[57].0@) == 7562856);
        } else if i == 58 {
            assert(text_key(t[58].0@) == 6450536);
        } else if i == 59 {
            assert(text_key(t[59].0@) == 6712680);
        } else if i == 60 {
            assert(text_key(t[60].0@) == 6843752);
        } else if i == 61 {
            assert(text_key(t[61].0@) == 7826792);
        } else if i == 62 {
            assert(text_key(t[62].0@) == 6714216);
        } else if i == 63 {
            assert(text_key(t[63].0@) == 7304040);
        } else if i == 64 {
            assert(text_key(t[64].0@) == 7042664);
        } else if i == 65 {
            assert(text_key(t[65].0@) == 7692905);
        } else if i == 66 {
            assert(text_key(t[66].0@) == 7758441);
        } else if i == 67 {
            assert(text_key(t[67].0@) == 6514281);
        } else if i == 68 {
            assert(text_key(t[68].0@) == 7562857);
        } else if i == 69 {
            assert(text_key(t[69].0@) == 7301737);
        } else if i == 70 {
            assert(text_key(t[70].0@) == 7368297);
        } else if i == 71 {
            assert(text_key(t[71].0@) == 7828329);
        } else if i == 72 {
            assert(text_key(t[72].0@) == 7304809);
        } else if i == 73 {
            assert(text_key(t[73].0@) == 6716009);
        } else if i == 74 {
            assert(text_key(t[74].0@) == 7365482);
        } else if i == 75 {
            assert(text_key(t[75].0@) == 6710378);
        } else if i == 76 {
            assert(text_key(t[76].0@) == 7365994);
        } else if i == 77 {
            assert(text_key(t[77].0@) == 6974058);
        } else if i == 78 {
            assert(text_key(t[78].0@) == 7761002);
        } else if i == 79 {
            assert(text_key(t[79].0@) == 6712682);
        } else if i == 80 {
            assert(text_key(t[80].0@) == 6451050);
        } else if i == 81 {
            assert(text_key(t[81].0@) == 6647658);
        } else if i == 82 {
            assert(text_key(t[82].0@) == 7106922);
        } else if i == 83 {
            assert(text_key(t[83].0@) == 7173226);
        } else if i == 84 {
            assert(text_key(t[84].0@) == 6452586);
        } else if i == 85 {
            assert(text_key(t[85].0@) == 7823979);
        } else if i == 86 {
            assert(text_key(t[86].0@) == 7303531);
        } else if i == 87 {
            assert(text_key(t[87].0@) == 7168620);
        } else if i == 88 {
            assert(text_key(t[88].0@) == 7299692);
        } else if i == 89 {
            assert(text_key(t[89].0@) == 7627372);
        } else if i == 90 {
            assert(text_key(t[90].0@) == 7692908);
        } else if i == 91 {
            assert(text_key(t[91].0@) == 7758444);
        } else if i == 92 {
            assert(text_key(t[92].0@) == 8086124);
        } else if i == 93 {
            assert(text_key(t[93].0@) == 7235948);
        } else if i == 94 {
            assert(text_key(t[94].0@) == 7105132);
        } else if i == 95 {
            assert(text_key(t[95].0@) == 7301740);
        } else if i == 96 {
            assert(text_key(t[96].0@) == 7563884);
        } else if i == 97 {
            assert(text_key(t[97].0@) == 7237740);
        } else if i == 98 {
            assert(text_key(t[98].0@) == 7303276);
        } else if i == 99 {
            assert(text_key(t[99].0@) == 7565420);
        } else if i == 100 {
            assert(text_key(t[100].0@) == 6452844);
        } else if i == 101 {
            assert(text_key(t[101].0@) == 7566956);
        } else if i == 102 {
            assert(text_key(t[102].0@) == 7365229);
        } else if i == 103 {
            assert(text_key(t[103].0@) == 7692909);
        } else if i == 104 {
            assert(text_key(t[104].0@) == 7823981);
        } else if i == 105 {
            assert(text_key(t[105].0@) == 7236205);
        } else if i == 106 {
            assert(text_key(t[106].0@) == 7301741);
        } else if i == 107 {
            assert(text_key(t[107].0@) == 7694957);
        } else if i == 108 {
            assert(text_key(t[108].0@) == 8090989);
        } else if i == 109 {
            assert(text_key(t[109].0@) == 6518381);
        } else if i == 110 {
            assert(text_key(t[110].0@) == 6846061);
        } else if i == 111 {
            assert(text_key(t[111].0@) == 6578798);
        } else if i == 112 {
            assert(text_key(t[112].0@) == 6906478);
        } else if i == 113 {
            assert(text_key(t[113].0@) == 7168622);
        } else if i == 114 {
            assert(text_key(t[114].0@) == 7365230);
        } else if i == 115 {
            assert(text_key(t[115].0@) == 7561838);
        } else if i == 116 {
            assert(text_key(t[116].0@) == 8020590);
        } else if i == 117 {
            assert(text_key(t[117].0@) == 6646894);
        } else if i == 118 {
            assert(text_key(t[118].0@) == 6843758);
        } else if i == 119 {
            assert(text_key(t[119].0@) == 7695726);
        } else if i == 120 {
            assert(text_key(t[120].0@) == 7303278);
        } else if i == 121 {
            assert(text_key(t[121].0@) == 6976366);
        } else if i == 122 {
            assert(text_key(t[122].0@) == 6452334);
        } else if i == 123 {
            assert(text_key(t[123].0@) == 6453870);
        } else if i == 124 {
            assert(text_key(t[124].0@) == 7758447);
        } else if i == 125 {
            assert(text_key(t[125].0@) == 7823983);
        } else if i == 126 {
            assert(text_key(t[126].0@) == 7168879);
        } else if i == 127 {
            assert(text_key(t[127].0@) == 6710639);
        } else if i == 128 {
            assert(text_key(t[128].0@) == 7365999);
        } else if i == 129 {
            assert(text_key(t[129].0@) == 7431791);
        } else if i == 130 {
            assert(text_key(t[130].0@) == 6647151);
        } else if i == 131 {
            assert(text_key(t[131].0@) == 7368559);
        } else if i == 132 {
            assert(text_key(t[132].0@) == 6516847);
        } else if i == 133 {
            assert(text_key(t[133].0@) == 7565423);
        } else if i == 134 {
            assert(text_key(t[134].0@) == 6453871);
        } else if i == 135 {
            assert(text_key(t[135].0@) == 6972528);
        } else if i == 136 {
            assert(text_key(t[136].0@) == 6974320);
        } else if i == 137 {
            assert(text_key(t[137].0@) == 6976368);
        } else if i == 138 {
            assert(text_key(t[138].0@) == 7238512);
        } else if i == 139 {
            assert(text_key(t[139].0@) == 7631984);
        } else if i == 140 {
            assert(text_key(t[140].0@) == 7299697);
        } else if i == 141 {
            assert(text_key(t[141].0@) == 7562865);
        } else if i == 142 {
            assert(text_key(t[142].0@) == 6974833);
        } else if i == 143 {
            assert(text_key(t[143].0@) == 7172209);
        } else if i == 144 {
            assert(text_key(t[144].0@) == 7565425);
        } else if i == 145 {
            assert(text_key(t[145].0@) == 7632497);
        } else if i == 146 {
            assert(text_key(t[146].0@) == 6714994);
        } else if i == 147 {
            assert(text_key(t[147].0@) == 6910067);
        } else if i == 148 {
            assert(text_key(t[148].0@) == 7303283);
        } else if i == 149 {
            assert(text_key(t[149].0@) == 7239283);
        } else if i == 150 {
            assert(text_key(t[150].0@) == 7304819);
        } else if i == 151 {
            assert(text_key(t[151].0@) == 7632499);
        } else if i == 152 {
            assert(text_key(t[152].0@) == 6840948);
        } else if i == 153 {
            assert(text_key(t[153].0@) == 7299700);
        } else if i == 154 {
            assert(text_key(t[154].0@) == 7301748);
        } else if i == 155 {
            assert(text_key(t[155].0@) == 7105908);
        } else if i == 156 {
            assert(text_key(t[156].0@) == 7368052);
        } else if i == 157 {
            assert(text_key(t[157].0@) == 7826804);
        } else if i == 158 {
            assert(text_key(t[158].0@) == 6712948);
        } else if i == 159 {
            assert(text_key(t[159].0@) == 7368308);
        } else if i == 160 {
            assert(text_key(t[160].0@) == 6451060);
        } else if i == 161 {
            assert(text_key(t[161].0@) == 6647668);
        } else if i == 162 {
            assert(text_key(t[162].0@) == 7237748);
        } else if i == 163 {
            assert(text_key(t[163].0@) == 7696500);
        } else if i == 164 {
            assert(text_key(t[164].0@) == 6451572);
        } else if i == 165 {
            assert(text_key(t[165].0@) == 6976116);
        } else if i == 166 {
            assert(text_key(t[166].0@) == 6648692);
        } else if i == 167 {
            assert(text_key(t[167].0@) == 7435124);
        } else if i == 168 {
            assert(text_key(t[168].0@) == 7894132);
        } else if i == 169 {
            assert(text_key(t[169].0@) == 7304820);
        } else if i == 170 {
            assert(text_key(t[170].0@) == 6453364);
        } else if i == 171 {
            assert(text_key(t[171].0@) == 6715508);
        } else if i == 172 {
            assert(text_key(t[172].0@) == 6906485);
        } else if i == 173 {
            assert(text_key(t[173].0@) == 7234165);
        } else if i == 174 {
            assert(text_key(t[174].0@) == 7692917);
        } else if i == 175 {
            assert(text_key(t[175].0@) == 7169653);
        } else if i == 176 {
            assert(text_key(t[176].0@) == 7104629);
        } else if i == 177 {
            assert(text_key(t[177].0@) == 7170165);
        } else if i == 178 {
            assert(text_key(t[178].0@) == 6449525);
        } else if i == 179 {
            assert(text_key(t[179].0@) == 6515317);
        } else if i == 180 {
            assert(text_key(t[180].0@) == 7563893);
        } else if i == 181 {
            assert(text_key(t[181].0@) == 7303285);
        } else if i == 182 {
            assert(text_key(t[182].0@) == 7304309);
        } else if i == 183 {
            assert(text_key(t[183].0@) == 7369845);
        } else if i == 184 {
            assert(text_key(t[184].0@) == 7108213);
        } else if i == 185 {
            assert(text_key(t[185].0@) == 7566965);
        } else if i == 186 {
            assert(text_key(t[186].0@) == 6977653);
        } else if i == 187 {
            assert(text_key(t[187].0@) == 6842998);
        } else if i == 188 {
            assert(text_key(t[188].0@) == 7564406);
        } else if i == 189 {
            assert(text_key(t[189].0@) == 6648694);
        } else if i == 190 {
            assert(text_key(t[190].0@) == 6519670);
        } else if i == 191 {
            assert(text_key(t[191].0@) == 7300727);
        } else if i == 192 {
            assert(text_key(t[192].0@) == 6711927);
        } else if i == 193 {
            assert(text_key(t[193].0@) == 7172215);
        } else if i == 194 {
            assert(text_key(t[194].0@) == 7169656);
        } else if i == 195 {
            assert(text_key(t[195].0@) == 7302520);
        } else if i == 196 {
            assert(text_key(t[196].0@) == 7172216);
        } else if i == 197 {
            assert(text_key(t[197].0@) == 7367033);
        } else if i == 198 {
            assert(text_key(t[198].0@) == 6646394);
        } else if i == 199 {
            assert(text_key(t[199].0@) == 7565434);
        } else if i == 200 {
            assert(text_key(t[200].0@) == 6449531);
        } else if i == 201 {
            assert(text_key(t[201].0@) == 7367035);
        } else if i == 202 {
            assert(text_key(t[202].0@) == 7173755);
        }
    }
}

#[verifier::rlimit(100)]
proof fn lemma_preferred_keys()
    ensures
        forall|i: int| 0 <= i < LANGUAGE_PREFERRED@.len() ==> {
            let row = #[trigger] LANGUAGE_PREFERRED@[i];
            &&& preferred_row(text_key(row.0@)) == i
            &&& preferred_row(text_key(row.1@)) == -1
            &&& (row.1@.len() == 2 || (row.1@.len() == 3 && alpha3_row(text_key(row.1@)) == -1))
            &&& forall|k: int| 0 <= k < row.1@.len() ==> is_lower(#[trigger] row.1@[k])
        },
{
    reveal_strlit("aam");
    reveal_strlit("aas");
    reveal_strlit("adp");
    reveal_strlit("dz");
    reveal_strlit("ajp");
    reveal_strlit("apc");
    reveal_strlit("ajt");
    reveal_strlit("aeb");
    reveal_strlit("asd");
    reveal_strlit("snz");
    reveal_strlit("aue");
    reveal_strlit("ktz");
    reveal_strlit("ayx");
    reveal_strlit("nun");
    reveal_strlit("bgm");
    reveal_strlit("bcg");
    reveal_strlit("bh");
    reveal_strlit("bih");
    reveal_strlit("bic");
    reveal_strlit("bir");
    reveal_strlit("bjd");
    reveal_strlit("drl");
    reveal_strlit("blg");
    reveal_strlit("iba");
    reveal_strlit("ccq");
    reveal_strlit("rki");
    reveal_strlit("cjr");
    reveal_strlit("mom");
    reveal_strlit("cka");
    reveal_strlit("cmr");
    reveal_strlit("cmk");
    reveal_strlit("xch");
    reveal_strlit("coy");
    reveal_strlit("pij");
    reveal_strlit("cqu");
    reveal_strlit("quh");
    reveal_strlit("dek");
    reveal_strlit("sqm");
    reveal_strlit("dit");
    reveal_strlit("dif");
    reveal_strlit("drh");
    reveal_strlit("khk");
    reveal_strlit("drr");
    reveal_strlit("kzk");
    reveal_strlit("drw");
    reveal_strlit("prs");
    reveal_strlit("gav");
    reveal_strlit("dev");
    reveal_strlit("gfx");
    reveal_strlit("vaj");
    reveal_strlit("ggn");
    reveal_strlit("gvr");
    reveal_strlit("gli");
    reveal_strlit("gti");
    reveal_strlit("nyc");
    reveal_strlit("guv");
    reveal_strlit("duz");
    reveal_strlit("hrr");
    reveal_strlit("jal");
    reveal_strlit("ibi");
    reveal_strlit("opa");
    reveal_strlit("ilw");
    reveal_strlit("gal");
    reveal_strlit("in");
    reveal_strlit("id");
    reveal_strlit("iw");
    reveal_strlit("he");
    reveal_strlit("jeg");
    reveal_strlit("oyb");
    reveal_strlit("ji");
    reveal_strlit("yi");
    reveal_strlit("jw");
    reveal_strlit("jv");
    reveal_strlit("kgc");
    reveal_strlit("tdf");
    reveal_strlit("kgh");
    reveal_strlit("kml");
    reveal_strlit("kgm");
    reveal_strlit("plu");
    reveal_strlit("koj");
    reveal_strlit("kwv");
    reveal_strlit("krm");
    reveal_strlit("bmf");
    reveal_strlit("ktr");
    reveal_strlit("dtp");
    reveal_strlit("kvs");
    reveal_strlit("gdj");
    reveal_strlit("kwq");
    reveal_strlit("yam");
    reveal_strlit("kxe");
    reveal_strlit("tvd");
    reveal_strlit("kxl");
    reveal_strlit("kru");
    reveal_strlit("kzj");
    reveal_strlit("kzt");
    reveal_strlit("lak");
    reveal_strlit("ksp");
    reveal_strlit("lii");
    reveal_strlit("raq");
    reveal_strlit("llo");
    reveal_strlit("ngt");
    reveal_strlit("lmm");
    reveal_strlit("rmx");
    reveal_strlit("meg");
    reveal_strlit("cir");
    reveal_strlit("mo");
    reveal_strlit("ro");
    reveal_strlit("mrd");
    reveal_strlit("mgp");
    reveal_strlit("mst");
    reveal_strlit("mry");
    reveal_strlit("mwj");
    reveal_strlit("myd");
    reveal_strlit("aog");
    reveal_strlit("myt");
    reveal_strlit("nad");
    reveal_strlit("xny");
    reveal_strlit("ncp");
    reveal_strlit("kdz");
    reveal_strlit("nns");
    reveal_strlit("nbr");
    reveal_strlit("nnx");
    reveal_strlit("ngv");
    reveal_strlit("nom");
    reveal_strlit("cbr");
    reveal_strlit("nte");
    reveal_strlit("eko");
    reveal_strlit("nts");
    reveal_strlit("nxu");
    reveal_strlit("bpp");
    reveal_strlit("oun");
    reveal_strlit("pat");
    reveal_strlit("kxr");
    reveal_strlit("pcr");
    reveal_strlit("adx");
    reveal_strlit("pmc");
    reveal_strlit("huw");
    reveal_strlit("pmk");
    reveal_strlit("crr");
    reveal_strlit("pmu");
    reveal_strlit("phr");
    reveal_strlit("ppa");
    reveal_strlit("bfy");
    reveal_strlit("ppr");
    reveal_strlit("lcq");
    reveal_strlit("prp");
    reveal_strlit("gu");
    reveal_strlit("pry");
    reveal_strlit("prt");
    reveal_strlit("puz");
    reveal_strlit("pub");
    reveal_strlit("sca");
    reveal_strlit("hle");
    reveal_strlit("shl");
    reveal_strlit("mrh");
    reveal_strlit("skk");
    reveal_strlit("smd");
    reveal_strlit("kmb");
    reveal_strlit("snb");
    reveal_strlit("szd");
    reveal_strlit("umi");
    reveal_strlit("tdu");
    reveal_strlit("thc");
    reveal_strlit("tpo");
    reveal_strlit("thw");
    reveal_strlit("ola");
    reveal_strlit("thx");
    reveal_strlit("tie");
    reveal_strlit("ras");
    reveal_strlit("tkk");
    reveal_strlit("twm");
    reveal_strlit("tlw");
    reveal_strlit("weo");
    reveal_strlit("tmk");
    reveal_strlit("tdg");
    reveal_strlit("tmp");
    reveal_strlit("tyj");
    reveal_strlit("tne");
    reveal_strlit("kak");
    reveal_strlit("tnf");
    reveal_strlit("tpw");
    reveal_strlit("tpn");
    reveal_strlit("tsf");
    reveal_strlit("taj");
    reveal_strlit("uok");
    reveal_strlit("ema");
    reveal_strlit("xba");
    reveal_strlit("cax");
    reveal_strlit("xia");
    reveal_strlit("acn");
    reveal_strlit("xkh");
    reveal_strlit("waw");
    reveal_strlit("xrq");
    reveal_strlit("dmw");
    reveal_strlit("xss");
    reveal_strlit("zko");
    reveal_strlit("ybd");
    reveal_strlit("yma");
    reveal_strlit("lrr");
    reveal_strlit("ymt");
    reveal_strlit("mtm");
    reveal_strlit("yol");
    reveal_strlit("enm");
    reveal_strlit("yos");
    reveal_strlit("zom");
    reveal_strlit("yuu");
    reveal_strlit("yug");
    reveal_strlit("zir");
    reveal_strlit("scv");
    reveal_strlit("zkb");
    reveal_strlit("kjh");
    let t = LANGUAGE_PREFERRED@;
    assert(t.len() == 112);
    assert forall|i: int| 0 <= i < t.len() implies {
        let row = #[trigger] t[i];
        &&& preferred_row(text_key(row.0@)) == i
        &&& preferred_row(text_key(row.1@)) == -1
        &&& (row.1@.len() == 2 || (row.1@.len() == 3 && alpha3_row(text_key(row.1@)) == -1))
        &&& forall|k: int| 0 <= k < row.1@.len() ==> is_lower(#[trigger] row.1@[k])
    } by {
        if i == 0 {
            assert(text_key(t[0].0@) == 7234146);
            assert(text_key(t[0].1@) == 7627362);
        } else if i == 1 {
            assert(text_key(t[1].0@) == 7431522);
            assert(text_key(t[1].1@) == 31589);
        } else if i == 2 {
            assert(text_key(t[2].0@) == 7433058);
            assert(text_key(t[2].1@) == 6582626);
        } else if i == 3 {
            assert(text_key(t[3].0@) == 7695202);
            assert(text_key(t[3].1@) == 6514274);
        } else if i == 4 {
            assert(text_key(t[4].0@) == 6648930);
            assert(text_key(t[4].1@) == 8089460);
        } else if i == 5 {
            assert(text_key(t[5].0@) == 6714978);
            assert(text_key(t[5].1@) == 8090988);
        } else if i == 6 {
            assert(text_key(t[6].0@) == 7961186);
            assert(text_key(t[6].1@) == 7304815);
        } else if i == 7 {
            assert(text_key(t[7].0@) == 7235683);
            assert(text_key(t[7].1@) == 6841443);
        } else if i == 8 {
            assert(text_key(t[8].0@) == 26979);
            assert(text_key(t[8].1@) == 6908515);
        } else if i == 9 {
            assert(text_key(t[9].0@) == 6580835);
            assert(text_key(t[9].1@) == 7563875);
        } else if i == 10 {
            assert(text_key(t[10].0@) == 6646627);
            assert(text_key(t[10].1@) == 7172965);
        } else if i == 11 {
            assert(text_key(t[11].0@) == 6843747);
            assert(text_key(t[11].1@) == 6447978);
        } else if i == 12 {
            assert(text_key(t[12].0@) == 7496804);
            assert(text_key(t[12].1@) == 6974579);
        } else if i == 13 {
            assert(text_key(t[13].0@) == 7564132);
            assert(text_key(t[13].1@) == 7237742);
        } else if i == 14 {
            assert(text_key(t[14].0@) == 6450276);
            assert(text_key(t[14].1@) == 7564900);
        } else if i == 15 {
            assert(text_key(t[15].0@) == 7106148);
            assert(text_key(t[15].1@) == 6907001);
        } else if i == 16 {
            assert(text_key(t[16].0@) == 8024164);
            assert(text_key(t[16].1@) == 7039601);
        } else if i == 17 {
            assert(text_key(t[17].0@) == 7762532);
            assert(text_key(t[17].1@) == 6911602);
        } else if i == 18 {
            assert(text_key(t[18].0@) == 7104101);
            assert(text_key(t[18].1@) == 7238260);
        } else if i == 19 {
            assert(text_key(t[19].0@) == 7694949);
            assert(text_key(t[19].1@) == 6777445);
        } else if i == 20 {
            assert(text_key(t[20].0@) == 6910821);
            assert(text_key(t[20].1@) == 7104876);
        } else if i == 21 {
            assert(text_key(t[21].0@) == 7566181);
            assert(text_key(t[21].1@) == 7109484);
        } else if i == 22 {
            assert(text_key(t[22].0@) == 7893861);
            assert(text_key(t[22].1@) == 7631729);
        } else if i == 23 {
            assert(text_key(t[23].0@) == 7823976);
            assert(text_key(t[23].1@) == 7824997);
        } else if i == 24 {
            assert(text_key(t[24].0@) == 7956328);
            assert(text_key(t[24].1@) == 7037559);
        } else if i == 25 {
            assert(text_key(t[25].0@) == 7301224);
            assert(text_key(t[25].1@) == 7567208);
        } else if i == 26 {
            assert(text_key(t[26].0@) == 6974824);
            assert(text_key(t[26].1@) == 7109484);
        } else if i == 27 {
            assert(text_key(t[27].0@) == 6976872);
            assert(text_key(t[27].1@) == 6584943);
        } else if i == 28 {
            assert(text_key(t[28].0@) == 7829096);
            assert(text_key(t[28].1@) == 8091237);
        } else if i == 29 {
            assert(text_key(t[29].0@) == 7566185);
            assert(text_key(t[29].1@) == 7168619);
        } else if i == 30 {
            assert(text_key(t[30].0@) == 6972266);
            assert(text_key(t[30].1@) == 6451568);
        } else if i == 31 {
            assert(text_key(t[31].0@) == 7892330);
            assert(text_key(t[31].1@) == 7168616);
        } else if i == 32 {
            assert(text_key(t[32].0@) == 28522);
            assert(text_key(t[32].1@) == 25962);
        } else if i == 33 {
            assert(text_key(t[33].0@) == 30826);
            assert(text_key(t[33].1@) == 26217);
        } else if i == 34 {
            assert(text_key(t[34].0@) == 6841963);
            assert(text_key(t[34].1@) == 6519408);
        } else if i == 35 {
            assert(text_key(t[35].0@) == 27243);
            assert(text_key(t[35].1@) == 27258);
        } else if i == 36 {
            assert(text_key(t[36].0@) == 30827);
            assert(text_key(t[36].1@) == 30571);
        } else if i == 37 {
            assert(text_key(t[37].0@) == 6580332);
            assert(text_key(t[37].1@) == 6776181);
        } else if i == 38 {
            assert(text_key(t[38].0@) == 6908012);
            assert(text_key(t[38].1@) == 7171692);
        } else if i == 39 {
            assert(text_key(t[39].0@) == 7235692);
            assert(text_key(t[39].1@) == 7761265);
        } else if i == 40 {
            assert(text_key(t[40].0@) == 7041132);
            assert(text_key(t[40].1@) == 7829612);
        } else if i == 41 {
            assert(text_key(t[41].0@) == 7238508);
            assert(text_key(t[41].1@) == 6778467);
        } else if i == 42 {
            assert(text_key(t[42].0@) == 7566700);
            assert(text_key(t[42].1@) == 7435621);
        } else if i == 43 {
            assert(text_key(t[43].0@) == 7632748);
            assert(text_key(t[43].1@) == 7038312);
        } else if i == 44 {
            assert(text_key(t[44].0@) == 7501932);
            assert(text_key(t[44].1@) == 7234170);
        } else if i == 45 {
            assert(text_key(t[45].0@) == 6715756);
            assert(text_key(t[45].1@) == 6649717);
        } else if i == 46 {
            assert(text_key(t[46].0@) == 7174508);
            assert(text_key(t[46].1@) == 7762796);
        } else if i == 47 {
            assert(text_key(t[47].0@) == 7043948);
            assert(text_key(t[47].1@) == 7435621);
        } else if i == 48 {
            assert(text_key(t[48].0@) == 7699308);
            assert(text_key(t[48].1@) == 7435621);
        } else if i == 49 {
            assert(text_key(t[49].0@) == 7103085);
            assert(text_key(t[49].1@) == 7435372);
        } else if i == 50 {
            assert(text_key(t[50].0@) == 6974061);
            assert(text_key(t[50].1@) == 7496307);
        } else if i == 51 {
            assert(text_key(t[51].0@) == 7368045);
            assert(text_key(t[51].1@) == 7694447);
        } else if i == 52 {
            assert(text_key(t[52].0@) == 7237229);
            assert(text_key(t[52].1@) == 7958131);
        } else if i == 53 {
            assert(text_key(t[53].0@) == 6841966);
            assert(text_key(t[53].1@) == 7563876);
        } else if i == 54 {
            assert(text_key(t[54].0@) == 28782);
            assert(text_key(t[54].1@) == 28787);
        } else if i == 55 {
            assert(text_key(t[55].0@) == 6648686);
            assert(text_key(t[55].1@) == 7432302);
        } else if i == 56 {
            assert(text_key(t[56].0@) == 7697518);
            assert(text_key(t[56].1@) == 8024942);
        } else if i == 57 {
            assert(text_key(t[57].0@) == 7043182);
            assert(text_key(t[57].1@) == 7037559);
        } else if i == 58 {
            assert(text_key(t[58].0@) == 6650478);
            assert(text_key(t[58].1@) == 6844514);
        } else if i == 59 {
            assert(text_key(t[59].0@) == 7699054);
            assert(text_key(t[59].1@) == 8024942);
        } else if i == 60 {
            assert(text_key(t[60].0@) == 6644335);
            assert(text_key(t[60].1@) == 8023929);
        } else if i == 61 {
            assert(text_key(t[61].0@) == 7431279);
            assert(text_key(t[61].1@) == 8086892);
        } else if i == 62 {
            assert(text_key(t[62].0@) == 7630703);
            assert(text_key(t[62].1@) == 7562095);
        } else if i == 63 {
            assert(text_key(t[63].0@) == 7958383);
            assert(text_key(t[63].1@) == 7825519);
        } else if i == 64 {
            assert(text_key(t[64].0@) == 7237743);
            assert(text_key(t[64].1@) == 7562084);
        } else if i == 65 {
            assert(text_key(t[65].0@) == 6714735);
            assert(text_key(t[65].1@) == 7367782);
        } else if i == 66 {
            assert(text_key(t[66].0@) == 7632239);
            assert(text_key(t[66].1@) == 7039601);
        } else if i == 67 {
            assert(text_key(t[67].0@) == 7764335);
            assert(text_key(t[67].1@) == 7434595);
        } else if i == 68 {
            assert(text_key(t[68].0@) == 7304816);
            assert(text_key(t[68].1@) == 7037559);
        } else if i == 69 {
            assert(text_key(t[69].0@) == 7692913);
            assert(text_key(t[69].1@) == 7567724);
        } else if i == 70 {
            assert(text_key(t[70].0@) == 7562353);
            assert(text_key(t[70].1@) == 7955810);
        } else if i == 71 {
            assert(text_key(t[71].0@) == 6581873);
            assert(text_key(t[71].1@) == 7894633);
        } else if i == 72 {
            assert(text_key(t[72].0@) == 7106161);
            assert(text_key(t[72].1@) == 7566180);
        } else if i == 73 {
            assert(text_key(t[73].0@) == 7761521);
            assert(text_key(t[73].1@) == 7563633);
        } else if i == 74 {
            assert(text_key(t[74].0@) == 6451569);
            assert(text_key(t[74].1@) == 8021859);
        } else if i == 75 {
            assert(text_key(t[75].0@) == 7565681);
            assert(text_key(t[75].1@) == 7496813);
        } else if i == 76 {
            assert(text_key(t[76].0@) == 7435121);
            assert(text_key(t[76].1@) == 30312);
        } else if i == 77 {
            assert(text_key(t[77].0@) == 8024945);
            assert(text_key(t[77].1@) == 7697265);
        } else if i == 78 {
            assert(text_key(t[78].0@) == 8091249);
            assert(text_key(t[78].1@) == 6518385);
        } else if i == 79 {
            assert(text_key(t[79].0@) == 6448244);
            assert(text_key(t[79].1@) == 6712681);
        } else if i == 80 {
            assert(text_key(t[80].0@) == 7170420);
            assert(text_key(t[80].1@) == 6910830);
        } else if i == 81 {
            assert(text_key(t[81].0@) == 7105652);
            assert(text_key(t[81].1@) == 6519408);
        } else if i == 82 {
            assert(text_key(t[82].0@) == 6647412);
            assert(text_key(t[82].1@) == 6516332);
        } else if i == 83 {
            assert(text_key(t[83].0@) == 6516596);
            assert(text_key(t[83].1@) == 6447978);
        } else if i == 84 {
            assert(text_key(t[84].0@) == 6650740);
            assert(text_key(t[84].1@) == 6975094);
        } else if i == 85 {
            assert(text_key(t[85].0@) == 7759221);
            assert(text_key(t[85].1@) == 7435621);
        } else if i == 86 {
            assert(text_key(t[86].0@) == 6580597);
            assert(text_key(t[86].1@) == 7369077);
        } else if i == 87 {
            assert(text_key(t[87].0@) == 7891317);
            assert(text_key(t[87].1@) == 6450544);
        } else if i == 88 {
            assert(text_key(t[88].0@) == 7956853);
            assert(text_key(t[88].1@) == 6519408);
        } else if i == 89 {
            assert(text_key(t[89].0@) == 6711925);
            assert(text_key(t[89].1@) == 7627379);
        } else if i == 90 {
            assert(text_key(t[90].0@) == 7105653);
            assert(text_key(t[90].1@) == 7239797);
        } else if i == 91 {
            assert(text_key(t[91].0@) == 7892341);
            assert(text_key(t[91].1@) == 7366264);
        } else if i == 92 {
            assert(text_key(t[92].0@) == 7106165);
            assert(text_key(t[92].1@) == 6841717);
        } else if i == 93 {
            assert(text_key(t[93].0@) == 7433845);
            assert(text_key(t[93].1@) == 7043701);
        } else if i == 94 {
            assert(text_key(t[94].0@) == 6713205);
            assert(text_key(t[94].1@) == 7103084);
        } else if i == 95 {
            assert(text_key(t[95].0@) == 6778741);
            assert(text_key(t[95].1@) == 7631729);
        } else if i == 96 {
            assert(text_key(t[96].0@) == 7893365);
            assert(text_key(t[96].1@) == 7303541);
        } else if i == 97 {
            assert(text_key(t[97].0@) == 6780021);
            assert(text_key(t[97].1@) == 7037557);
        } else if i == 98 {
            assert(text_key(t[98].0@) == 7106678);
            assert(text_key(t[98].1@) == 6450790);
        } else if i == 99 {
            assert(text_key(t[99].0@) == 6447993);
            assert(text_key(t[99].1@) == 7955044);
        } else if i == 100 {
            assert(text_key(t[100].0@) == 6449785);
            assert(text_key(t[100].1@) == 7300194);
        } else if i == 101 {
            assert(text_key(t[101].0@) == 6909049);
            assert(text_key(t[101].1@) == 7889528);
        } else if i == 102 {
            assert(text_key(t[102].0@) == 7500665);
            assert(text_key(t[102].1@) == 7892581);
        } else if i == 103 {
            assert(text_key(t[103].0@) == 7631993);
            assert(text_key(t[103].1@) == 7367803);
        } else if i == 104 {
            assert(text_key(t[104].0@) == 6644602);
            assert(text_key(t[104].1@) == 6974579);
        } else if i == 105 {
            assert(text_key(t[105].0@) == 6450810);
            assert(text_key(t[105].1@) == 7566189);
        } else if i == 106 {
            assert(text_key(t[106].0@) == 7695994);
            assert(text_key(t[106].1@) == 7239022);
        } else if i == 107 {
            assert(text_key(t[107].0@) == 7172218);
            assert(text_key(t[107].1@) == 7237478);
        } else if i == 108 {
            assert(text_key(t[108].0@) == 7630970);
            assert(text_key(t[108].1@) == 7237755);
        } else if i == 109 {
            assert(text_key(t[109].0@) == 7763578);
            assert(text_key(t[109].1@) == 6846074);
        } else if i == 110 {
            assert(text_key(t[110].0@) == 7563899);
            assert(text_key(t[110].1@) == 7824500);
        } else if i == 111 {
            assert(text_key(t[111].0@) == 6515835);
            assert(text_key(t[111].1@) == 6908780);
        }
    }
}

/// Every alpha-3 code is three characters wide, and each folds onto two small letters.
pub proof fn lemma_alpha3_rows()
    ensures
        forall|i: int| 0 <= i < ALPHA3@.len() ==> {
            let row = #[trigger] ALPHA3@[i];
            &&& row.0@.len() == 3
            &&& row.1@.len() == 2
            &&& forall|k: int| 0 <= k < 2 ==> is_lower(#[trigger] row.1@[k])
        },
{
    lemma_alpha3_keys();
    assert forall|i: int| 0 <= i < ALPHA3@.len() implies {
        let row = #[trigger] ALPHA3@[i];
        &&& row.0@.len() == 3
        &&& row.1@.len() == 2
        &&& forall|k: int| 0 <= k < 2 ==> is_lower(#[trigger] row.1@[k])
    } by {
        let row = ALPHA3@[i];
        assert forall|k: int| 0 <= k < 2 implies is_lower(#[trigger] row.1@[k]) by {
            if k == 0 {
            } else {
            }
        }
    }
}

/// Every `Preferred-Value` is two or three small letters, and is neither a subtag the registry
/// replaces nor an alpha-3 code: the fold is one hop, and nothing it lands on folds again.
pub proof fn lemma_preferred_rows()
    ensures
        forall|i: int| 0 <= i < LANGUAGE_PREFERRED@.len() ==> {
            let v = (#[trigger] LANGUAGE_PREFERRED@[i]).1@;
            &&& 2 <= v.len() <= 3
            &&& forall|k: int| 0 <= k < v.len() ==> is_lower(#[trigger] v[k])
            &&& paired(LANGUAGE_PREFERRED@, v) is None
            &&& paired(ALPHA3@, v) is None
        },
{
    lemma_alpha3_keys();
    lemma_preferred_keys();
    let p = LANGUAGE_PREFERRED@;
    let a = ALPHA3@;
    assert forall|i: int| 0 <= i < p.len() implies {
        let v = (#[trigger] p[i]).1@;
        &&& 2 <= v.len() <= 3
        &&& forall|k: int| 0 <= k < v.len() ==> is_lower(#[trigger] v[k])
        &&& paired(p, v) is None
        &&& paired(a, v) is None
    } by {
        let v = p[i].1@;
        lemma_paired(p, v);
        if let Some(w) = paired(p, v) {
            let j = choose|j: int| 0 <= j < p.len() && #[trigger] p[j].0@ == v && p[j].1 == w;
            assert(preferred_row(text_key(p[j].0@)) == j);
        }
        lemma_paired(a, v);
        if let Some(w) = paired(a, v) {
            let j = choose|j: int| 0 <= j < a.len() && #[trigger] a[j].0@ == v && a[j].1 == w;
            assert(alpha3_row(text_key(a[j].0@)) == j);
        }
    }
}

} // verus!
