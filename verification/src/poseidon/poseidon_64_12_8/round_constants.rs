//! The round constants of the permutation of width 12.

use vstd::prelude::*;

verus! {

/// The constants of each round, in the form that the partial rounds use:
/// of the rows of the partial rounds after the first, only the entry at
/// index 0 is added.
pub const ARK: [[u64; 12]; 30] = [
    [
        3342624911463171251,
        6781356195391537436,
        4697929572322733707,
        4179687232228901671,
        17841073646522133059,
        18340176721233187897,
        13152929999122219197,
        6306257051437840427,
        4974451914008050921,
        11258703678970285201,
        581736081259960204,
        18323286026903235604,
    ],
    [
        10250026231324330997,
        13321947507807660157,
        13020725208899496943,
        11416990495425192684,
        7221795794796219413,
        2607917872900632985,
        2591896057192169329,
        10485489452304998145,
        9480186048908910015,
        2645141845409940474,
        16242299839765162610,
        12203738590896308135,
    ],
    [
        5395176197344543510,
        17941136338888340715,
        7559392505546762987,
        549633128904721280,
        15658455328409267684,
        10078371877170729592,
        2349868247408080783,
        13105911261634181239,
        12868653202234053626,
        9471330315555975806,
        4580289636625406680,
        13222733136951421572,
    ],
    [
        4555032575628627551,
        7619130111929922899,
        4547848507246491777,
        5662043532568004632,
        15723873049665279492,
        13585630674756818185,
        6990417929677264473,
        6373257983538884779,
        1005856792729125863,
        17850970025369572891,
        14306783492963476045,
        12653264875831356889,
    ],
    [
        10887434669785806501,
        5860438919639852469,
        13562758051366197240,
        11281423163572576941,
        11010364684624673712,
        3609894717198373475,
        2857078765033295647,
        10613907436992354031,
        2127516485693786130,
        5179216700721206500,
        667064457668387208,
        3269565065785113276,
    ],
    [
        10623812734732325494,
        0,
        0,
        0,
        0,
        0,
        0,
        0,
        0,
        0,
        0,
        0,
    ],
    [
        3482313124719033742,
        0,
        0,
        0,
        0,
        0,
        0,
        0,
        0,
        0,
        0,
        0,
    ],
    [
        16573951386448822347,
        0,
        0,
        0,
        0,
        0,
        0,
        0,
        0,
        0,
        0,
        0,
    ],
    [
        11207203987960290077,
        0,
        0,
        0,
        0,
        0,
        0,
        0,
        0,
        0,
        0,
        0,
    ],
    [
        15797451987878016994,
        0,
        0,
        0,
        0,
        0,
        0,
        0,
        0,
        0,
        0,
        0,
    ],
    [
        8582621896649111280,
        0,
        0,
        0,
        0,
        0,
        0,
        0,
        0,
        0,
        0,
        0,
    ],
    [
        17314968117136177458,
        0,
        0,
        0,
        0,
        0,
        0,
        0,
        0,
        0,
        0,
        0,
    ],
    [
        662276588715934376,
        0,
        0,
        0,
        0,
        0,
        0,
        0,
        0,
        0,
        0,
        0,
    ],
    [
        17440734083735621885,
        0,
        0,
        0,
        0,
        0,
        0,
        0,
        0,
        0,
        0,
        0,
    ],
    [
        11157378678473576256,
        0,
        0,
        0,
        0,
        0,
        0,
        0,
        0,
        0,
        0,
        0,
    ],
    [
        13379216091107483417,
        0,
        0,
        0,
        0,
        0,
        0,
        0,
        0,
        0,
        0,
        0,
    ],
    [
        14817179324865344437,
        0,
        0,
        0,
        0,
        0,
        0,
        0,
        0,
        0,
        0,
        0,
    ],
    [
        1846395309883290947,
        0,
        0,
        0,
        0,
        0,
        0,
        0,
        0,
        0,
        0,
        0,
    ],
    [
        4870909675229475951,
        0,
        0,
        0,
        0,
        0,
        0,
        0,
        0,
        0,
        0,
        0,
    ],
    [
        5661125543739831339,
        0,
        0,
        0,
        0,
        0,
        0,
        0,
        0,
        0,
        0,
        0,
    ],
    [
        11127221369240904114,
        0,
        0,
        0,
        0,
        0,
        0,
        0,
        0,
        0,
        0,
        0,
    ],
    [
        4250810027222144733,
        0,
        0,
        0,
        0,
        0,
        0,
        0,
        0,
        0,
        0,
        0,
    ],
    [
        11760434366235360549,
        0,
        0,
        0,
        0,
        0,
        0,
        0,
        0,
        0,
        0,
        0,
    ],
    [
        3330921671784295973,
        0,
        0,
        0,
        0,
        0,
        0,
        0,
        0,
        0,
        0,
        0,
    ],
    [
        7122707995732409864,
        0,
        0,
        0,
        0,
        0,
        0,
        0,
        0,
        0,
        0,
        0,
    ],
    [
        17522374822599693986,
        0,
        0,
        0,
        0,
        0,
        0,
        0,
        0,
        0,
        0,
        0,
    ],
    [
        12723275943377720767,
        14785736031955679545,
        15257683393549924851,
        14586462537439744229,
        13109892360729616102,
        18054952537889795742,
        12589969976105374274,
        1436163932748701916,
        14879322534176465619,
        17580838042056220468,
        17970300042937392952,
        1420156878331078790,
    ],
    [
        17310902395782251544,
        9021117459098865178,
        9956374953785489337,
        9283926179170577664,
        2866744588122882663,
        12613310502798528952,
        48642999969593367,
        5069344854700671784,
        17704314310866354161,
        15988800480645163458,
        5818851986787837003,
        2578102338873304736,
    ],
    [
        13779049950938903889,
        9431620200784999174,
        16739974985861420869,
        15052263707393285803,
        11794044470831060964,
        12407310182639291233,
        16772957376150280651,
        7712582098709140624,
        1838118114767177406,
        14993893147640414015,
        1508554399796017280,
        14168503072706820248,
    ],
    [
        5465099181299765844,
        5157031041920728309,
        6420136306126768660,
        16331322219387907554,
        14945672812425851725,
        10584746352376021094,
        17049935967678990406,
        15218583273832305844,
        8057411706461231029,
        13457234708307314114,
        12805943922448093993,
        4260119674133082996,
    ],
];

} // verus!
