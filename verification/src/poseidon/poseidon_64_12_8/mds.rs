//! The linear-layer tables of the permutation of width 12.

use vstd::prelude::*;

verus! {

/// The dense diffusion matrix: row `i` holds the coefficients of element `i`
/// of the product.
pub const MDS: [[u64; 12]; 12] = [
    [
        8062354434719430557,
        14961898876701168261,
        14072440978656289413,
        3813898698085822056,
        2661992107161659435,
        3094630301859670042,
        3977106272425873496,
        13933779115385017346,
        14189793454789259666,
        4589564893138867870,
        10656609797473742311,
        4351795636554906703,
    ],
    [
        3629225075051654566,
        5505041507055232084,
        10613583062517235368,
        1959763024107998211,
        7567922212435485310,
        2733130895475987737,
        4343102577131897859,
        17270065735636854691,
        3752691483242407468,
        5081949864520279640,
        8073294779762788586,
        13956275920678724480,
    ],
    [
        6376192859023102565,
        12742498195983677857,
        14773641347982789813,
        14837508958922443859,
        16763356155844416005,
        10598503663924302579,
        16184038293031944329,
        13621822751103418285,
        4305242994748865404,
        7879428323599719493,
        14047355934964505240,
        2705439982723035579,
    ],
    [
        15291615095972091554,
        13266027256011357758,
        7833042914132636033,
        2067639338136971208,
        9895526792122960223,
        10209551385997036050,
        8773753981941606356,
        13205642198100979132,
        7837802265059468963,
        6408204717473862567,
        15830614506969495927,
        15013501726694741751,
    ],
    [
        4231867082619939226,
        9487199445522374556,
        10193853044559582482,
        13922939181059841659,
        17666289061339892708,
        10897134177118973490,
        16386144691484835842,
        1072548541978236852,
        6069893080856189971,
        8881735842565329257,
        5850024874013740724,
        6976954589483661694,
    ],
    [
        4184087375896651807,
        3638918904749292497,
        17239574026122101423,
        12786639009708118542,
        6254862572315590282,
        1629590728702708772,
        6673060922912979208,
        6516195972713186877,
        16915033719725765719,
        4450092469307778592,
        6146395711041360497,
        12203405532558077535,
    ],
    [
        3447947061680092303,
        14698586745078822058,
        7417801860138218805,
        7688875089822095986,
        2037829315856691427,
        18012203483038413286,
        10134743567522000194,
        17690756460959553601,
        18192098666773533285,
        6311149141618075588,
        14728574619499559417,
        11983667693583105106,
    ],
    [
        2569967209706010234,
        7580063482011404161,
        1037264167681961852,
        8606342303052326554,
        14674322088923028330,
        17504536570532066534,
        8146281342193668769,
        9557835506920111885,
        850433035699737413,
        11898265417469071053,
        7779157783667474031,
        8995535601867580306,
    ],
    [
        7581636945872566763,
        14601060572455277959,
        3016935651704872944,
        7026634763238041693,
        196656516477314644,
        12243723558789076687,
        6216628555349727933,
        2072871153194036346,
        13605384252814469191,
        11815698918607316697,
        9467288609154657287,
        15812850586328277755,
    ],
    [
        4316582198064733503,
        4791006047222050110,
        1145519502995968566,
        4285137197096394109,
        9117066297380536120,
        9054380764130329792,
        17228068624121884666,
        11082693959710948890,
        16616264979856204026,
        12374626663989955442,
        9731001592189262557,
        2396964613666436532,
    ],
    [
        16201557689612905826,
        125361537117473690,
        15830772518552943808,
        10511623029446172327,
        10570957911041485345,
        4962838094393792127,
        9076005812400608041,
        12254095523339714984,
        12890969368040571960,
        17094410138259985087,
        6696785618317865133,
        15368358043273625229,
    ],
    [
        5140309616425735503,
        12788654981167798303,
        16891596484841155792,
        12991174693007313597,
        8473418439344353796,
        5691475968038033816,
        16396843216027926601,
        14015446524163305690,
        1321923216714856411,
        12535014903554896842,
        3217272198733985269,
        15190344371695839041,
    ],
];

/// The matrix that takes the state into the basis of the partial rounds: row
/// `i` holds the coefficients of element `i` of the product.
pub const M_I: [[u64; 12]; 12] = [
    [
        1,
        0,
        0,
        0,
        0,
        0,
        0,
        0,
        0,
        0,
        0,
        0,
    ],
    [
        0,
        2158060718382483437,
        12633424942224798421,
        4777031255670923347,
        13810382489330343170,
        5980937736834687786,
        17615625872697810809,
        8519081369454728786,
        17983666362169740948,
        352717809370599872,
        14596717606170371766,
        11878471173434419322,
    ],
    [
        0,
        11754347615332992199,
        15221410160123011287,
        9576416882454739319,
        4934201052230350224,
        18131261854779456237,
        3696372200709561186,
        1830975090686683544,
        7402203711856260174,
        15993806483102991232,
        2194427887710972645,
        6116900358833301660,
    ],
    [
        0,
        3486218395374702936,
        7048571406563264703,
        3390695810356745466,
        17815710998065970247,
        5683127066971111493,
        16534123397177176779,
        4818144576565365187,
        11045624522517011798,
        11845781958513489049,
        10972555231289128451,
        9618413108795116640,
    ],
    [
        0,
        4653298637352379119,
        16666615639444866792,
        13610041889433331621,
        16508747845641758791,
        12940031247090567099,
        7956713201180548613,
        5036568925971673080,
        10058280257916306652,
        18285750637631418779,
        13191954341739574054,
        16034138042725216380,
    ],
    [
        0,
        1953963121003461671,
        10851184604049541589,
        4260292174967232937,
        2093595995981523053,
        16923628384061636138,
        5404224727068436824,
        12141104289011305014,
        17570862541139196820,
        8627836555235183197,
        15970493132971852340,
        294786144583825969,
    ],
    [
        0,
        15548184796780012808,
        2902262303638539229,
        15694280630349127258,
        11933460275235303455,
        16770585064217543619,
        16744644483687293548,
        13695162428859011932,
        7152331555942404225,
        2970007195368798264,
        17943264901704182513,
        1767322893549682670,
    ],
    [
        0,
        4543539838695305424,
        14593589866004278817,
        14832434754214995386,
        10187121468219971046,
        512996911318723683,
        10576287842559590775,
        13488838327375509042,
        698534714526749786,
        2987548373835153756,
        6907532238036774524,
        18009420070725193469,
    ],
    [
        0,
        5784489872872352520,
        15471886733357500598,
        9951348002575169362,
        10886010806916911815,
        10573764975764958572,
        3016791753848188,
        5601639491406028618,
        8881011192109198104,
        9182460993923536403,
        1462585920642101189,
        2317779622249459788,
    ],
    [
        0,
        3415021772692410798,
        3489621560158593854,
        11056398025294547380,
        1376074721579680681,
        13420511277149628271,
        11653065982005406757,
        16133371653697095553,
        12302470161068436372,
        17780027919379006106,
        2126860165578362362,
        5241564959198791370,
    ],
    [
        0,
        805230818572575460,
        12267358463494859140,
        3981890029904108424,
        11268169567552075960,
        16174409121062643931,
        5222141619784919975,
        7960809792654116594,
        10869283568618512040,
        13254853361609060086,
        14340036452199296972,
        10579988325410622082,
    ],
    [
        0,
        6774082512037881392,
        16819193817668948100,
        9931598532857996089,
        17733071428694541110,
        12072613736336094882,
        1286242358904612343,
        6502657508317070596,
        9221307689218580481,
        10017444878623389708,
        3614239723492323729,
        16274346933542694497,
    ],
];

/// For each partial round, counted from the last one back, the multiples of
/// the first element that the other elements gain. The entry at index 0 is
/// not used.
pub const V_COL: [[u64; 12]; 22] = [
    [
        0,
        3629225075051654566,
        6376192859023102565,
        15291615095972091554,
        4231867082619939226,
        4184087375896651807,
        3447947061680092303,
        2569967209706010234,
        7581636945872566763,
        4316582198064733503,
        16201557689612905826,
        5140309616425735503,
    ],
    [
        0,
        3174769152765695593,
        15398814493500280447,
        7102572464868618193,
        16994932202887483160,
        7595997084663333207,
        17194652927860183796,
        11871246013281161847,
        12655654669163645933,
        5597619770687835499,
        9527594309024257404,
        5774890393891431239,
    ],
    [
        0,
        9900823259986584006,
        7897512944977505901,
        6359896515385500498,
        17179422913435930974,
        4154948033283679269,
        5671013427478139457,
        3528074043479024517,
        18324059333920206712,
        1668112970542290857,
        3625261527297370832,
        13539537832154938145,
    ],
    [
        0,
        15950971046952987094,
        16757976457980953654,
        13162381019784039009,
        18313989005710292068,
        268453962807870821,
        6098660200059101590,
        17270759517455511357,
        1808547483243666174,
        10561631511550265701,
        5441948435397805079,
        13085113480963835196,
    ],
    [
        0,
        2065177704099479340,
        11627079021215808113,
        14903643111665525020,
        16369376864207675730,
        9060376496652906879,
        754550844407590986,
        14069983996522666276,
        12832955135057147400,
        6436779036950727791,
        3975477911503929212,
        8987970270225818452,
    ],
    [
        0,
        13139392767217129631,
        7911906441256040991,
        11274432502984851096,
        11211209709553037295,
        1372859574983125504,
        12397366047374959673,
        17772165147772940859,
        5084288824275860183,
        1738018633395983276,
        11843853300175599524,
        15472393889590690640,
    ],
    [
        0,
        3904941661289751125,
        16460825649328888370,
        10008761613534697254,
        17502493990320430191,
        4277916158331180526,
        884123356170170309,
        5523035328343569958,
        13794118152417037822,
        600111217372614462,
        7805094262647227503,
        17062759630687559556,
    ],
    [
        0,
        6461764041951615326,
        4656265152802223966,
        16046553876337806210,
        4514234704320432401,
        11091741279640103475,
        15062759977368613582,
        3868179120167499416,
        7041075066228536609,
        15622226894059770996,
        16883668369804892660,
        3675545581701288072,
    ],
    [
        0,
        3114161665082839122,
        12753443089443893759,
        688046305758890303,
        9724916664503296832,
        9949803546411180303,
        3234289782707954702,
        7206596811010183353,
        12458667016285968957,
        8041024608611587254,
        6085249416353960285,
        5631414445789734936,
    ],
    [
        0,
        14328022145509946308,
        10281273059164539845,
        10953870767391011328,
        9215264849880260265,
        739903065261847740,
        14217092720568361632,
        4476233894250140047,
        1078026271423843718,
        11738310925408701982,
        13229892590184962812,
        5491076495390020912,
    ],
    [
        0,
        5881986625426797506,
        6938819412898842,
        3192263132204025985,
        564404582539101496,
        9598341869352134181,
        6322739125080706197,
        278711029585087508,
        3560662468400468052,
        10094244102135883495,
        10368866570483793634,
        18173424469866095558,
    ],
    [
        0,
        4340233673262743195,
        5412520373127784619,
        15087018169083941570,
        9556794505221451448,
        4364021002675748317,
        2104067839451465804,
        11074071509739717784,
        9928047471811309533,
        1820748710299608652,
        11197934435654809429,
        5892729950681645780,
    ],
    [
        0,
        1976645583306580231,
        10879448862362332422,
        3680486528272222032,
        1414763658050872129,
        15475980094393448281,
        13723475442576965524,
        4271432360104067112,
        3806075920426632338,
        2820403172525422582,
        2383048935092489737,
        11786889667190877716,
    ],
    [
        0,
        103100088301150079,
        5320097144863780227,
        987335612830152350,
        1552585381046976392,
        13882596209699906017,
        18093675644281219501,
        12596149597955621142,
        2070197435224727453,
        3680603003014812465,
        14112546989100657610,
        12494359290403337778,
    ],
    [
        0,
        14151934581786944899,
        13887699195350627988,
        8795178045181095299,
        4399117974048598099,
        10999089880759249935,
        11924725603586529716,
        8710459237669954437,
        12651238610945171587,
        4641159618944760377,
        6169141624008518477,
        4881059707347026494,
    ],
    [
        0,
        4342599146291414314,
        13580352481588642514,
        11795467523314822754,
        5886070139709419559,
        2508866944054020039,
        1630754566261052977,
        16468765799918809378,
        13413684424144493660,
        129989508857472649,
        9252185312076567640,
        1613341563578894196,
    ],
    [
        0,
        5881161376590569367,
        18238408201523176044,
        4814836150892889140,
        4613463776836364995,
        2090919146578941871,
        8502911456828685773,
        12506467312026599905,
        16445802965524940471,
        249437767226346575,
        1825205014635838860,
        7163429820956120073,
    ],
    [
        0,
        12793466016333952410,
        11431540265716897966,
        1775225793782912443,
        18281609648435992199,
        16227569315938784950,
        17049530573936359840,
        6147457812712741548,
        12686937074915559964,
        4925115237899128480,
        2579719555369486540,
        7182060210949979232,
    ],
    [
        0,
        12454228053357765563,
        2629692629805585783,
        1093612361041406535,
        6936414575345642244,
        8896009754285000024,
        7744378096686790110,
        15661543027297758554,
        825969605583424032,
        3675939254525501555,
        13832550918826371654,
        7477046261159793357,
    ],
    [
        0,
        13004316706408310304,
        747875737245729263,
        17925664271468088999,
        7833034556437495734,
        17267948274759122624,
        13456101099020500377,
        432486153647843301,
        8346576719598541686,
        466546354564520542,
        560654515341796946,
        10216086068922803667,
    ],
    [
        0,
        12495389817112187194,
        4997848048970644713,
        8820153561103573931,
        1135816623197994199,
        14182178139782796191,
        12918211244185358863,
        9975242396411442972,
        8469371067231849782,
        16784703395658719491,
        2358923861924523686,
        1856315545073838847,
    ],
    [
        0,
        10886701715421322959,
        1160652906737679474,
        11568002309872769775,
        6391424287152370448,
        2586034218968342471,
        15723735635326701099,
        9220105308603778506,
        4976751516332797122,
        7240687926687836112,
        5404232401386714988,
        12029411450680498427,
    ],
];

/// For each partial round, counted from the last one back, the coefficients of
/// the new first element.
pub const W_HAT: [[u64; 12]; 22] = [
    [
        8062354434719430557,
        1867177648889215775,
        14047986573916550888,
        13678177067582171850,
        12863463961918205696,
        2816458212870361606,
        6488135874391666051,
        3437116424102173320,
        8842687689188467876,
        2826064837365678581,
        658840792183071885,
        15721493965206350769,
    ],
    [
        8062354434719430557,
        16597666069766672862,
        18115039219464537806,
        15402418414365514836,
        15881049221707682123,
        44038082423104488,
        493477868698632600,
        16593990050305803718,
        7282461366904484602,
        14013131729240129536,
        16633394452620714095,
        12311998408006928744,
    ],
    [
        8062354434719430557,
        2907512777859410844,
        9208503536965406982,
        16216374438449666965,
        14844938336004632567,
        5789190283744873881,
        15342158928834710541,
        662750964240076544,
        2425807139631389546,
        1662654065826901278,
        3289334310811262971,
        8248327568107419799,
    ],
    [
        8062354434719430557,
        3111377728668235695,
        6742868611572023696,
        14104621223398144042,
        8154768093785310338,
        11546672114354462090,
        12907946023713321434,
        244172551034307786,
        11243434373698781387,
        16370042466624472008,
        7745439498859874252,
        3416622226921401933,
    ],
    [
        8062354434719430557,
        6262731050311674691,
        3626814920263147703,
        5492674111065556195,
        14458343832821467249,
        16253146333818890399,
        6451961014696003330,
        14751938965208982692,
        6861030538469410506,
        17351496915228422105,
        3600152177012496450,
        10396985109687211952,
    ],
    [
        8062354434719430557,
        10090613519320443604,
        14488742663342256606,
        6951290240380398652,
        4146252529551147990,
        13133229638559488566,
        6809328597228316785,
        5378433248986465834,
        4748552632287917540,
        9791220523410774835,
        13971468217297075439,
        11090756600293661206,
    ],
    [
        8062354434719430557,
        13837602407884432356,
        7834482161321069499,
        9357723951755562414,
        8902058118751616812,
        9972196027117396602,
        2906545461378228693,
        18188156607311196991,
        10705143547155513456,
        11061387832956172260,
        10634538347498592605,
        1493830521795341373,
    ],
    [
        8062354434719430557,
        16624695864080499990,
        13791686741552249569,
        9823492037892770377,
        13482883000361194719,
        17659478796588298971,
        15087807004491322280,
        1958900311927974762,
        18221749351506921616,
        15971448179451753804,
        8579073481743428462,
        3490664135870704446,
    ],
    [
        8062354434719430557,
        8870679208657801571,
        13291085073230109121,
        9445946220599352859,
        4068613378454613166,
        7219976475861648115,
        9425784200244693910,
        5608999798069142587,
        17658277199332239983,
        177468111938977865,
        5248759849419656971,
        9388947517913306928,
    ],
    [
        8062354434719430557,
        10863737689744328425,
        651616585337249751,
        1987616664402086318,
        11285689554159888461,
        14551926402005037496,
        10776802328952256806,
        3368501198988478445,
        3140142022946087091,
        1985580634208993405,
        6966742083457508697,
        4699718752057263567,
    ],
    [
        8062354434719430557,
        15256972163927412934,
        14660379870084621829,
        17904624720016941378,
        17454967393183206167,
        12178846075159167958,
        9032980769023847223,
        3920437407641323089,
        15097990686465748669,
        4616484942963685939,
        18117188739823719914,
        1422873100358434209,
    ],
    [
        8062354434719430557,
        17366439487366385578,
        1760120500336612355,
        10136299924184357869,
        4638856500017385281,
        42387822155267507,
        2369106805807710920,
        18359150410469708264,
        3117745207992482838,
        8735029656671880111,
        219126756713711933,
        15927989835793909982,
    ],
    [
        8062354434719430557,
        3016687123234865260,
        7168959499650507543,
        3621666702397166038,
        6790995893349037069,
        763872415753733329,
        982995134154506940,
        4345554329803862621,
        15097519625812440149,
        2977331789057996380,
        7403401748101264905,
        8642092307169954224,
    ],
    [
        8062354434719430557,
        13554361889612894269,
        12653635137853489769,
        4208693237683046800,
        5048957914766516287,
        3603232588024916254,
        8043443424472390486,
        2793772692762899036,
        2812395623847006123,
        17814903877314473260,
        4617387519742390220,
        17271454912209369477,
    ],
    [
        8062354434719430557,
        501154067648155634,
        776413635959717188,
        7246212854545673760,
        17574855500146756211,
        7986525476453271668,
        13649171140377007879,
        7797254645544706695,
        18433244849619790138,
        1234303719231864833,
        14298385539756159739,
        14403164449988626923,
    ],
    [
        8062354434719430557,
        3380811521665421538,
        8727321330908146361,
        3955409799579559961,
        3339333888336303924,
        759323967050526397,
        5205294308108865305,
        5900300433153818643,
        13851869672402414027,
        5386682578087687601,
        12086883693046019951,
        6423748754294986832,
    ],
    [
        8062354434719430557,
        6166063930501477577,
        13705550032600702069,
        719934703848329223,
        1077623097608858594,
        14564835855045911933,
        13525602396347738632,
        16400857888223360782,
        16714146392101839677,
        6910924023381260731,
        184041681713360185,
        1715564452880218307,
    ],
    [
        8062354434719430557,
        15279455465556128221,
        2280314165251043834,
        20408913243633763,
        15242886575581237147,
        72284874393716348,
        12509080551577613041,
        516172342737654039,
        7754926961164928811,
        15625746105591169890,
        7509898374806321037,
        12420852404554686392,
    ],
    [
        8062354434719430557,
        11038503205720364921,
        14844915958505263777,
        6865108060410275137,
        9371749032461006049,
        5443932381017742197,
        8007797513539847331,
        12562284025768602160,
        1787272432393771459,
        3823083059709586122,
        7473177234877659716,
        11287353350233770681,
    ],
    [
        8062354434719430557,
        6660350873769463660,
        6282689462668041393,
        3035644164662993689,
        3340647035578798023,
        10442111131997969928,
        16396862477987587126,
        10681243678428642138,
        14616530772654872360,
        12480949792847319034,
        8413217378708148047,
        7723266752541471048,
    ],
    [
        8062354434719430557,
        6912706702384783280,
        4424306136217508506,
        1803381219602908141,
        2660010183792201644,
        2606947164709508210,
        6822158739120852807,
        10732006137166454252,
        17053668181508829905,
        9789728551021227611,
        11305393825637579091,
        4738316080822123878,
    ],
    [
        8062354434719430557,
        1156555263915682148,
        6884817270917034867,
        2840238617231832669,
        6887637099744311427,
        16382821351275608019,
        13392830502066914253,
        7069105398725090623,
        18075455748201948790,
        15753004024578308038,
        15532599079399910129,
        16631295750232733355,
    ],
];

} // verus!
