//! The linear-layer tables of the permutation of width 8.

use vstd::prelude::*;

verus! {

/// The dense diffusion matrix: row `i` holds the coefficients of element `i`
/// of the product.
pub const MDS: [[u64; 8]; 8] = [
    [
        15665739677678329448,
        14761037431676564634,
        15232655799733888386,
        7219896008038694144,
        16833143609560954478,
        13371594715003915405,
        11025193874933309488,
        2115462038151941103,
    ],
    [
        14714234413772989334,
        15709239302486602610,
        11400395424283092088,
        3307336641928453331,
        2083650131756605006,
        1900217460120204977,
        16949700886266222431,
        11823490811171925303,
    ],
    [
        15295442582497673479,
        17396583668478712252,
        1343987031226794836,
        2339730835464162424,
        7413931974161992290,
        13534370939837294384,
        9832848613173085858,
        7844357158177642373,
    ],
    [
        2696925559007867278,
        1557049008711126064,
        7360817417939431019,
        11078027825891222598,
        6607339708200885002,
        4684539808108992398,
        4717760937828897088,
        15964374282815256859,
    ],
    [
        17965905919598481955,
        15407633716183131496,
        28955141318220746,
        13479003427736828777,
        4160715655911201686,
        11201498084541442593,
        8917207575607047436,
        7116052015563793652,
    ],
    [
        9295364978535393065,
        4817503758083861761,
        16447695158761396496,
        4753576845484507428,
        7235543102394329024,
        7498238539141902111,
        9331742461781196439,
        12949701259399224346,
    ],
    [
        15256992577437847297,
        6652925989773138817,
        5079847034286052344,
        4550811009404289617,
        1458397351619239493,
        17792684201245919421,
        6150173047518599418,
        1994521646738237037,
    ],
    [
        3158367583368769003,
        14738065501122616700,
        301916385472689059,
        9357604073739055570,
        12675749649111885170,
        12491452512285176950,
        4730418877145812395,
        2086640369749051342,
    ],
];

/// The matrix that takes the state into the basis of the partial rounds: row
/// `i` holds the coefficients of element `i` of the product.
pub const M_I: [[u64; 8]; 8] = [
    [
        1,
        0,
        0,
        0,
        0,
        0,
        0,
        0,
    ],
    [
        0,
        11417175008092614480,
        8073066592479890593,
        1521336658734357176,
        7688692089893502263,
        123809535153350209,
        16893340412411273511,
        9165715784062500506,
    ],
    [
        0,
        539339684927131214,
        4958763416319432662,
        9609797837462109879,
        1506157853856276434,
        5881371791636834400,
        15694659029239593053,
        10356878312485286851,
    ],
    [
        0,
        9370096670683349538,
        4346299147281121438,
        8696838521930320976,
        8605622456439300958,
        12096906975260248744,
        5600689532757754456,
        13160721654300935699,
    ],
    [
        0,
        17735590064681481672,
        7156152544070263116,
        16546384001894101779,
        2185874837149726550,
        9083397940013258929,
        14985967037687339922,
        4814244272938750345,
    ],
    [
        0,
        15860523797886301402,
        6441351369888798847,
        11905134903355379932,
        2505224718279382174,
        5888207532787990280,
        7477095283177689305,
        12718611369423834193,
    ],
    [
        0,
        331904639706794286,
        12302195703376707011,
        2746812526880489727,
        5732863445774430136,
        653300070183740841,
        2098213422797841468,
        13484733700056817242,
    ],
    [
        0,
        14847318717282070426,
        13775848424915007996,
        8792827167878067852,
        2956799298581338507,
        8374231230061881601,
        6884501437450402973,
        17942021740832824,
    ],
];

/// For each partial round, counted from the last one back, the multiples of
/// the first element that the other elements gain. The entry at index 0 is
/// not used.
pub const V_COL: [[u64; 8]; 22] = [
    [
        0,
        14714234413772989334,
        15295442582497673479,
        2696925559007867278,
        17965905919598481955,
        9295364978535393065,
        15256992577437847297,
        3158367583368769003,
    ],
    [
        0,
        17434648884499039172,
        15395171557141269351,
        17165130218314876351,
        2318989611215810392,
        17983354292234754098,
        3329479811376337598,
        7215420945515093878,
    ],
    [
        0,
        17396816530289318624,
        10818042536989618729,
        3286812612465662602,
        10551392076678634864,
        8239914318844963640,
        3708392512710007349,
        4211188505236435417,
    ],
    [
        0,
        13920731545234664628,
        13202538296811479702,
        4442397242288509728,
        12044996773503518821,
        10667432157756740067,
        7861826730005481550,
        1708356356398162853,
    ],
    [
        0,
        7953196718822256178,
        11664155898882213900,
        7885959015860783051,
        5192182123754012307,
        4009807460571720306,
        7815984065605510937,
        8757968947205464174,
    ],
    [
        0,
        9287716530172836684,
        9864232958758783932,
        12630587719892330711,
        13491890605628657297,
        3671628873646733547,
        3958394425879049514,
        13189122458756487660,
    ],
    [
        0,
        7878426467880568926,
        2458143552811094413,
        1864114828393993565,
        13854150286571093044,
        16922577471080933344,
        289713472824945579,
        3660794549807575902,
    ],
    [
        0,
        8011156089730631401,
        12192090446642039270,
        13531436176528423855,
        18279402914315908450,
        12122263267233787223,
        4649039760877044545,
        774117055211209308,
    ],
    [
        0,
        10187729073612718515,
        9831215990813509174,
        15894327751972047367,
        17678208387410779102,
        12370724615153314357,
        5612049686543101843,
        12941189046191301012,
    ],
    [
        0,
        259529520163092294,
        6678737766211136590,
        971968362182839516,
        5758641078030592869,
        6353776433509552482,
        4650461526464300370,
        3137875695092797832,
    ],
    [
        0,
        1373803839828072035,
        8722324625935338590,
        15183481750700167211,
        952948248534488297,
        17156331445851101253,
        15437010288959432158,
        3685347770567811932,
    ],
    [
        0,
        13153581878748812938,
        4435858640749877085,
        5536862541576354420,
        2697347949762671413,
        10272913315251174916,
        11305085310113155374,
        14265925088526361110,
    ],
    [
        0,
        4620840999367217461,
        9134293570234229924,
        17166279391362831041,
        2494769171254721370,
        16664561206228220272,
        5284489402954674742,
        12312420844101303761,
    ],
    [
        0,
        1654629273931315435,
        18254965379032004659,
        8880869464815497145,
        231324553483287115,
        6068831571199242158,
        14676454573891149722,
        8173461891987916228,
    ],
    [
        0,
        3315127955573276263,
        1051471900491075124,
        16657921117706684514,
        15588164500884865995,
        9432351979821966671,
        146172509861691911,
        14381341306358726870,
    ],
    [
        0,
        17052097107742048020,
        7438923376739246340,
        8135064217904846460,
        18282063799536637630,
        1629375766535839618,
        14187311274670463421,
        9014555022063543799,
    ],
    [
        0,
        15559204037314418191,
        2890334797296737012,
        4191660376196357349,
        16018664954818099696,
        7983751776208009484,
        12651490725524204962,
        155897827789606440,
    ],
    [
        0,
        3367423674765160956,
        12928436102312095142,
        7456338901332129971,
        17361978922988111419,
        4559459950508901974,
        1917836068719068979,
        1576114184934801301,
    ],
    [
        0,
        3475085957796945797,
        3295849077756365516,
        9438697043878875672,
        1503978507612151321,
        3312356440497309665,
        31143325588064814,
        11788246494843619827,
    ],
    [
        0,
        4838430657107732788,
        9355951818074364835,
        15403830109779901164,
        3884072746597139146,
        8134550246837891083,
        10206642302609506686,
        5647842928246683832,
    ],
    [
        0,
        17022142438444346336,
        17152505894966579525,
        2482349221949635510,
        11060929051930900139,
        17070005525500714889,
        15690262577663963466,
        7569882159656954547,
    ],
    [
        0,
        14435535831228617659,
        1796720195831182232,
        1442360747831927003,
        3368328654499589437,
        1606227434279650234,
        9548960172372227806,
        9298681339224169477,
    ],
];

/// For each partial round, counted from the last one back, the coefficients of
/// the new first element.
pub const W_HAT: [[u64; 8]; 22] = [
    [
        15665739677678329448,
        17232883515396795863,
        14236601672255005261,
        6833728164056015567,
        16744272745294593339,
        977502436806863166,
        7736136323470716757,
        6219350691475573577,
    ],
    [
        15665739677678329448,
        4661801157882984172,
        6580924646000666874,
        1491456614677402743,
        17620039427400252496,
        9577938345332203423,
        8553962580890007161,
        14407132943251198789,
    ],
    [
        15665739677678329448,
        314947281145154056,
        2639276743140882414,
        18359617890805587632,
        17720135834359893189,
        3717248477080227792,
        2271164900914575158,
        3645734884209347175,
    ],
    [
        15665739677678329448,
        608875068351247300,
        10513948249862711204,
        16042957565259377754,
        4738996224031044393,
        9498844674137415389,
        14895916716216094503,
        4883015024678323663,
    ],
    [
        15665739677678329448,
        2671808849846657829,
        18099494010101798878,
        9332824505110791188,
        5224322033233971607,
        12150193460642903704,
        8765357771888501148,
        7884162349068708932,
    ],
    [
        15665739677678329448,
        18055148734663628248,
        9779014104285707040,
        10076064710657143718,
        18130396764255554272,
        10535916727797006992,
        13245845421496886075,
        6946854582558382830,
    ],
    [
        15665739677678329448,
        8636118467569073221,
        9019105853311912199,
        9683845632922380100,
        16544164614968831326,
        9852843708879439779,
        6632939486909968000,
        13979627164078645610,
    ],
    [
        15665739677678329448,
        10208810653387952974,
        1822699096543926793,
        3059924690378257357,
        8038098565083286089,
        4495069545760351456,
        3327203617447245207,
        10822129188448966135,
    ],
    [
        15665739677678329448,
        3074903898833815658,
        5836424161120531724,
        16579797455531270547,
        3142347461449201457,
        16989524593149446515,
        13617954913757031979,
        2740237490072006335,
    ],
    [
        15665739677678329448,
        12770176443797132592,
        8846000752338083651,
        10672378758952145557,
        2934048404118528784,
        5987294971168543875,
        18283816555037449308,
        17521646125737263736,
    ],
    [
        15665739677678329448,
        10477798739121162779,
        6298727276747768874,
        11013708236169365910,
        11210191079330499899,
        507909967100413077,
        2171610989259822371,
        5232943736465415166,
    ],
    [
        15665739677678329448,
        6783768545294738226,
        14678703841381030384,
        9983741824202831481,
        14856679798235258963,
        14689973280222977585,
        10409316311995350006,
        14067258760709817042,
    ],
    [
        15665739677678329448,
        13448256280298132724,
        10276774410130051289,
        13925975751618149941,
        15772917982255413389,
        3842441561710749847,
        2879362729761045254,
        3249793397834684295,
    ],
    [
        15665739677678329448,
        7410641574912520668,
        15320816675489988652,
        5657763507863891187,
        9119867548485666918,
        6314430726896704725,
        5711452648741414528,
        17602658866987624023,
    ],
    [
        15665739677678329448,
        10994047073907868483,
        8216641614210664126,
        3503858270552599384,
        10011046567191683738,
        14932774705604500283,
        2316253901020668110,
        18149748225829126241,
    ],
    [
        15665739677678329448,
        8375970984005269224,
        3435980036161356512,
        5767070434603677324,
        1452235317312856512,
        16136258063284525039,
        14733492472701417223,
        7183095870196989032,
    ],
    [
        15665739677678329448,
        17557010166753490623,
        14028280845694952237,
        12914216367085308653,
        5822048435689966810,
        18146230864389865958,
        9849996067876521215,
        17831160909507072350,
    ],
    [
        15665739677678329448,
        14343470352978796062,
        15918016519014119368,
        1517569989932517265,
        14183095349894257225,
        7981405543668413997,
        18236278366866574291,
        12383051004075138289,
    ],
    [
        15665739677678329448,
        16814247010191196818,
        8247690514607887002,
        5331770784558034365,
        1305149629581187109,
        81613922796915882,
        17750390909352117992,
        13690790489809218463,
    ],
    [
        15665739677678329448,
        18425006711959819293,
        2234547165584397360,
        187374063863358105,
        10249579720640525061,
        8676144487086415955,
        2263417139807844923,
        16320520364905964003,
    ],
    [
        15665739677678329448,
        11071864438782463275,
        6496150729843188361,
        86943579747116357,
        10467289479100461068,
        7560708523540007019,
        9729076366842668834,
        219373675070972461,
    ],
    [
        15665739677678329448,
        10829072901710157659,
        11409850929191849698,
        12797502451450543895,
        9513101583707246677,
        11873701286632384758,
        2717809327157260447,
        1852895931045625524,
    ],
];

} // verus!
