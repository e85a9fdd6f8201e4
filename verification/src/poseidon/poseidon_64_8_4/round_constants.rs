//! The round constants of the permutation of width 8.

use vstd::prelude::*;

verus! {

/// The constants of each round, in the form that the partial rounds use:
/// of the rows of the partial rounds after the first, only the entry at
/// index 0 is added.
pub const ARK: [[u64; 8]; 30] = [
    [
        14868588146468890290,
        12825281145595371185,
        13097885453579304196,
        7905326782341128063,
        14167525334039893569,
        2082169701994688927,
        12190787523818595537,
        12602917751946636,
    ],
    [
        14890907856876319003,
        16552240149997473409,
        5634093690795187558,
        4883714163685656967,
        12440776365164557866,
        3923800234666204307,
        9858064884105950259,
        16040043470428402038,
    ],
    [
        5226594323142090582,
        1243120476974621208,
        12100812801659301173,
        11228203327983058121,
        13891617888374767564,
        5742893160230537107,
        3763472116988983643,
        2466655769425769160,
    ],
    [
        6254574254498162968,
        14183251225809189357,
        11565357354521717084,
        17300657704266685688,
        310485250821938281,
        16853586468012618118,
        1978800426240373849,
        6948188224235462572,
    ],
    [
        1486402152218690509,
        16955328100905888714,
        7505683032868420991,
        11328211457936381922,
        612038529001873241,
        12252251775121571307,
        5866504076199154821,
        13004471280904559815,
    ],
    [
        9989391113842120059,
        0,
        0,
        0,
        0,
        0,
        0,
        0,
    ],
    [
        10201875036116497353,
        0,
        0,
        0,
        0,
        0,
        0,
        0,
    ],
    [
        10501098860412604863,
        0,
        0,
        0,
        0,
        0,
        0,
        0,
    ],
    [
        13640029196902837837,
        0,
        0,
        0,
        0,
        0,
        0,
        0,
    ],
    [
        1102094207060897931,
        0,
        0,
        0,
        0,
        0,
        0,
        0,
    ],
    [
        11196206472832987,
        0,
        0,
        0,
        0,
        0,
        0,
        0,
    ],
    [
        5564258898007695472,
        0,
        0,
        0,
        0,
        0,
        0,
        0,
    ],
    [
        6374968067007959461,
        0,
        0,
        0,
        0,
        0,
        0,
        0,
    ],
    [
        8743037082591056287,
        0,
        0,
        0,
        0,
        0,
        0,
        0,
    ],
    [
        5611576151034974534,
        0,
        0,
        0,
        0,
        0,
        0,
        0,
    ],
    [
        14621173798994666125,
        0,
        0,
        0,
        0,
        0,
        0,
        0,
    ],
    [
        13620267546107573413,
        0,
        0,
        0,
        0,
        0,
        0,
        0,
    ],
    [
        14526945370555970960,
        0,
        0,
        0,
        0,
        0,
        0,
        0,
    ],
    [
        934646653677805722,
        0,
        0,
        0,
        0,
        0,
        0,
        0,
    ],
    [
        3695585867355429155,
        0,
        0,
        0,
        0,
        0,
        0,
        0,
    ],
    [
        9495698750958202903,
        0,
        0,
        0,
        0,
        0,
        0,
        0,
    ],
    [
        9667409423192505720,
        0,
        0,
        0,
        0,
        0,
        0,
        0,
    ],
    [
        2869840566059943868,
        0,
        0,
        0,
        0,
        0,
        0,
        0,
    ],
    [
        12729648200885408039,
        0,
        0,
        0,
        0,
        0,
        0,
        0,
    ],
    [
        12424320754576520616,
        0,
        0,
        0,
        0,
        0,
        0,
        0,
    ],
    [
        10656629914117890121,
        0,
        0,
        0,
        0,
        0,
        0,
        0,
    ],
    [
        11321798037787734142,
        8980154259883873756,
        11736938192888407579,
        13192414074373038918,
        2476169510837310467,
        1533959397343817152,
        12606670949879920962,
        7925350173351919368,
    ],
    [
        9072593798739179107,
        12001755003233916850,
        16756686135965682097,
        15550825404583733749,
        8694668369540076298,
        15457222476085186130,
        5108598208140922837,
        3620213722474373078,
    ],
    [
        1737544210964877402,
        12041739998039906088,
        16334966311057922544,
        5137358962377618679,
        1213551990698094820,
        15695810586362393067,
        588447137376260400,
        3254447233088923834,
    ],
    [
        2269559706035652258,
        10229779491236959908,
        18178626362772934419,
        2112259820731155608,
        3650955436557701657,
        3166379094491766286,
        17957126894474660968,
        1877109484718090567,
    ],
];

} // verus!
