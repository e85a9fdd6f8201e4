use hash::field::Fp;
use hash::poseidon::poseidon_64_12_8::{
    apply_full_sbox, apply_mds, apply_mi, apply_partial_rounds, cheap_matrix_mul, pow_7,
    NUM_PARTIAL_ROUNDS, STATE_WIDTH,
};
use rand_core::{OsRng, RngCore};

const INV_MDS: [u64; 144] = [
    7792246565304564677,
    6737692955818098982,
    15791360252969376700,
    18439545998547903789,
    16734825385473372180,
    10140624446356849193,
    11794865285518014666,
    2230841361506835732,
    11372108658544198209,
    5463705419431327078,
    10462729998602043300,
    14169413428913819094,
    5997431276131273385,
    8254576423272337335,
    16033387969251855141,
    2292547826487955779,
    17199532214101807449,
    16586075256567082741,
    10241182398805712556,
    5204617479282400644,
    14688815648913761756,
    13985631826627325426,
    17868697450992940962,
    11036519923621162644,
    9896089852381279076,
    1387108502390162567,
    17688415623332251784,
    7634188774953325023,
    13606558082653296513,
    14777160509404671947,
    6788199684845063803,
    1348730107459170050,
    1066492626911240989,
    5696798693567460950,
    1562940039928300678,
    2090872843902416284,
    17737991805099079339,
    12186236585264434022,
    13968489439304170277,
    432498034709121647,
    9331780971848569402,
    11555491758042323907,
    6998375352704439562,
    15691017284516246073,
    45908999545783440,
    15125408267219361928,
    261289812131805342,
    9586171282229604722,
    2397311691811073280,
    10197954120129172653,
    14600183771611113596,
    3605482521563051634,
    16029302701580524750,
    1226135555657393052,
    6909324053448291518,
    1827023493365315416,
    234701949265039456,
    8388881669051280590,
    7030311145045794101,
    7747498681316660123,
    7821684420983955256,
    8493650841321242208,
    7647971623325870677,
    3154293055571901568,
    14017475089668292079,
    4122528118531642118,
    15560327996390424880,
    4792356904158393082,
    9281414722545261503,
    10937210882112531833,
    6818621868472216190,
    15719822943961476000,
    3834722754751961386,
    10385241494937579384,
    17478627140018214727,
    13429271756391359880,
    14065075236679933468,
    18266867884476030582,
    4775486301608722194,
    876476359188388686,
    14767128742958403810,
    15844882719577225509,
    8519283286915585498,
    11698498222150031793,
    15188053448095911169,
    6645705634070887911,
    6242395348821973129,
    16700551771956619475,
    12796932097877915021,
    7654462724358120838,
    559667777046053579,
    15456746315386654702,
    1651119649478179189,
    1413062540372202446,
    4196568889468925049,
    3536209582714393691,
    12453522714558272688,
    17164760885518196768,
    14754139933057832558,
    5886297169670678940,
    16521770766367138568,
    5174792563293263237,
    5477730430629496026,
    7790640047902257329,
    15814239410257799513,
    514804492153574900,
    6301721944829213326,
    12203631079591342500,
    1669217711887079885,
    996819775750575929,
    16703385420178994115,
    2519703047823005265,
    5238692798856783646,
    8040057650649257265,
    4720421225720350085,
    18053938273462455849,
    18446002024572101283,
    10758243835291584425,
    1102905339657766003,
    10279509429056878793,
    16371278573463897314,
    14383702753852659506,
    7264817179969058640,
    6291629242201315744,
    3413072822723892630,
    8330448129229913210,
    16733566460094555816,
    16648503320933570732,
    12913647068447016510,
    5987553194213924258,
    4169046759276734476,
    15193813316217513582,
    8021949740434195035,
    14987886210393124529,
    7584512128970496137,
    10131114022341669237,
    12428957286055301081,
    2763957687298224050,
    3065178644418048920,
    3387175262199289738,
    793919983351123665,
    9497983756263453399,
    18260843074104487583,
    2733473456531985252,
];

/// The round constants of the partial rounds before they are moved into the
/// basis of the partial rounds: one row for each round, added to the whole
/// state.
const PARTIAL_ROUND_CONSTANTS: [[u64; 12]; 22] = [
    [
        10887434669785806501,
        7221072982690633460,
        9953585853856674407,
        13497620366078753434,
        18140292631504202243,
        17311934738088402529,
        6686302214424395771,
        11193071888943695519,
        10233795775801758543,
        3362219552562939863,
        8595401306696186761,
        7753411262943026561,
    ],
    [
        12415218859476220947,
        12517451587026875834,
        3257008032900598499,
        2187469039578904770,
        657675168296710415,
        8659969869470208989,
        12526098871288378639,
        12525853395769009329,
        15388161689979551704,
        7880966905416338909,
        2911694411222711481,
        6420652251792580406,
    ],
    [
        323544930728360053,
        11718666476052241225,
        2449132068789045592,
        17993014181992530560,
        15161788952257357966,
        3788504801066818367,
        1282111773460545571,
        8849495164481705550,
        8380852402060721190,
        2161980224591127360,
        2440151485689245146,
        17521895002090134367,
    ],
    [
        13821005335130766955,
        17513705631114265826,
        17068447856797239529,
        17964439003977043993,
        5685000919538239429,
        11615940660682589106,
        2522854885180605258,
        12584118968072796115,
        17841258728624635591,
        10821564568873127316,
        12929526205313074951,
        15240209309138869842,
    ],
    [
        8112988184280322821,
        10264318651796760217,
        11567563749053508498,
        10342172001635729828,
        8518076871621000645,
        9443305710168864155,
        12258139284331692775,
        11225713976478342221,
        1083829959428202152,
        13295679221277307734,
        8702942527907868190,
        3447159893350309030,
    ],
    [
        16331987863400672412,
        17004721198375099349,
        14568842036851006853,
        14031093640500276073,
        8047796853787800360,
        18176470296573070531,
        1733280390763076136,
        15280460251950617888,
        5319165528697198957,
        4130010739946422935,
        4862639442103099490,
        11947225653897253435,
    ],
    [
        16093634485870170562,
        466101267687143357,
        5269775209624779324,
        12661180512164132421,
        8527855600080265358,
        3509637282341164493,
        14524011473168972347,
        9558935312509120777,
        8282858737521047195,
        10171277103718892682,
        12294317531079789416,
        7182028925080765556,
    ],
    [
        2038954051047328382,
        1572125904757759485,
        6023737508444785880,
        8798428950960158590,
        1968909394335647758,
        16968160382228211614,
        32551027029362334,
        3205180815856999908,
        10740246361676213188,
        10169158339754762156,
        15226715702476100867,
        8966100427867584251,
    ],
    [
        17917233579925756683,
        7959268962897120034,
        532408456989891872,
        9851667167813963284,
        13448506932345489306,
        16135486720253939622,
        8458050899770540390,
        6021254166081897382,
        15552837092683737625,
        15440505484365682848,
        16088056409693275462,
        6169635475476966421,
    ],
    [
        5480704578777097169,
        7516526247262867111,
        3438140470099985472,
        13048600081642942971,
        9829255629799717904,
        17311489510949436164,
        15254947846872712175,
        5825939868327872570,
        850656437239379199,
        12619934071925039179,
        15233049780346247641,
        9298309061465962971,
    ],
    [
        741424706267005090,
        17203483336096778815,
        6919908349347460635,
        863377837517698584,
        11632281421519826770,
        17750153240261395489,
        14753366294352507072,
        12793355793496405427,
        16289545878058120229,
        6368259120071113126,
        4057875983396832839,
        13847225916600191037,
    ],
    [
        7872218736019578342,
        5426064199624116028,
        9479822711840773905,
        10634838597871962689,
        7081809782259040995,
        1440626909472018594,
        6603963598898808862,
        12662045888242770199,
        18036285107641934643,
        15828843208411476617,
        14102670999874605825,
        15585654191999307703,
    ],
    [
        940187017142450256,
        8747386241522630712,
        6750641561540124748,
        7440998025584530008,
        6136358134615751537,
        12413576830284969612,
        11675438539028694710,
        17580553691069642927,
        892707462476851332,
        15167485180850043745,
        9924997173903409412,
        9613966396549972013,
    ],
    [
        3242363036477934858,
        8529581814542674199,
        1460135031320476117,
        15230276901939640657,
        3034222759280296577,
        2536834233629877234,
        12229748406346543211,
        13166855996952940567,
        16039201196582061794,
        14239610657545203244,
        4079052969819075917,
        2550303736432259954,
    ],
    [
        15415646525902701306,
        16984207496990988313,
        6195489392633771043,
        15696991486732177869,
        17238905290121258980,
        16082743896956175460,
        2607127875797716838,
        4163972359010584653,
        2369705041192477687,
        12936899802672086396,
        17399492193998111961,
        14701188996710188063,
    ],
    [
        10673647621461954174,
        10187656820932330866,
        14253604578356758004,
        10632764261170436503,
        2575456097595068268,
        14486510292332525540,
        857634655205127854,
        11539936742927634064,
        3025473245387650600,
        3072205393568168823,
        16220766505279212230,
        13095270286885528495,
    ],
    [
        10043771903993878423,
        4580450255883541632,
        5546821308061729354,
        17932404490144193348,
        4055843989895157237,
        506731346742428544,
        1750774988219982266,
        13647783723546009630,
        17180411145007510672,
        7092939346849547588,
        2004811345434270086,
        3930380885080085231,
    ],
    [
        5731056810399963425,
        16339249658689415041,
        10896947625319492019,
        58048537304546191,
        12301681553475871944,
        15410898306178483444,
        5248513067045859782,
        11268429244640014487,
        3785322258417388297,
        12573604913857968925,
        10088460126056383905,
        9505879368173225761,
    ],
    [
        12331335364636844807,
        15800425329127532993,
        17233569579365152217,
        6580598753390726049,
        6332388716747236070,
        14837976254465985338,
        1387653002144476724,
        15556347971769261667,
        7571094906243962853,
        14097015672565897063,
        1689918468007574312,
        16247594734699408053,
    ],
    [
        6376995477333092352,
        962981388472387485,
        2846128944153513179,
        11832408739941285626,
        16892791912968591653,
        14660122210495197643,
        16446079849332856874,
        7976724875926637635,
        13842280498640749771,
        15375657835094741734,
        8871752519026737048,
        6979293996243387512,
    ],
    [
        10552448846206288151,
        14987673924494666433,
        18035303280469462414,
        16595113834715919465,
        15208661533916677630,
        4170608138187333497,
        16304084357983152470,
        2331503858766652994,
        8776079357547932587,
        18299646478835171989,
        3681263166902989193,
        12612029705709390274,
    ],
    [
        12014669431902405777,
        11319504285297576766,
        5234999940078631477,
        1125448944938006422,
        2164405204907480972,
        6168495504522907053,
        6250236942243891229,
        18269902991411124149,
        9426885685329917236,
        4521800374915508165,
        2213719649464492152,
        9422759956003735939,
    ],
];

/// A field element drawn from the operating system's random source.
fn random_element(rng: &mut OsRng) -> Fp {
    Fp::new(rng.next_u64())
}

/// Multiplies the state by the inverse of the dense diffusion matrix.
fn apply_inv_mds(state: &mut [Fp; STATE_WIDTH]) {
    let mut result = [Fp::zero(); STATE_WIDTH];
    for (i, r) in result.iter_mut().enumerate() {
        for (j, s) in state.iter().enumerate() {
            *r = r.add(Fp::new(INV_MDS[i * STATE_WIDTH + j]).mul(*s));
        }
    }
    state.copy_from_slice(&result);
}

#[test]
fn mod_test_mds() {
    let mut state = [Fp::zero(); STATE_WIDTH];
    let mut rng = OsRng;

    for _ in 0..100 {
        for s in state.iter_mut() {
            *s = random_element(&mut rng);
        }

        let state_copy = state;
        apply_mds(&mut state);

        // Check that matrix multiplication was consistent
        apply_inv_mds(&mut state);
        assert_eq!(state, state_copy);
    }
}

#[test]
fn poseidon_12_8_partial_rounds_match_dense_rounds() {
    let mut rng = OsRng;
    for _ in 0..128 {
        let mut dense = [Fp::zero(); STATE_WIDTH];
        for s in dense.iter_mut() {
            *s = random_element(&mut rng);
        }
        let mut sparse = dense;

        // every partial round with the dense matrix
        for _ in 0..NUM_PARTIAL_ROUNDS {
            pow_7(&mut dense[0]);
            apply_mds(&mut dense);
        }

        // one change of basis, then the sparse matrices
        apply_mi(&mut sparse);
        for round in 0..NUM_PARTIAL_ROUNDS {
            pow_7(&mut sparse[0]);
            cheap_matrix_mul(&mut sparse, round);
        }

        assert_eq!(dense, sparse);
    }
}

#[test]
fn poseidon_12_8_partial_rounds_match_dense_rounds_with_constants() {
    let mut rng = OsRng;
    for _ in 0..128 {
        let mut dense = [Fp::zero(); STATE_WIDTH];
        for s in dense.iter_mut() {
            *s = random_element(&mut rng);
        }
        let mut optimised = dense;

        // every partial round as it is defined: the constants of the round
        // on every element, the seventh power of the first element, the
        // dense matrix
        for constants in PARTIAL_ROUND_CONSTANTS.iter() {
            for (s, c) in dense.iter_mut().zip(constants) {
                *s = s.add(Fp::new(*c));
            }
            pow_7(&mut dense[0]);
            apply_mds(&mut dense);
        }

        apply_partial_rounds(&mut optimised);

        assert_eq!(dense, optimised);
    }
}

#[test]
fn poseidon_12_8_linear_layers_exact() {
    let input = [Fp::new(12345), Fp::new(11400714819323210830), Fp::new(4354685569231824994), Fp::new(15755400388555023479), Fp::new(8709371138463637643), Fp::new(1663341888372251807), Fp::new(13064056707695450292), Fp::new(6018027457604064456), Fp::new(17418742276927262941), Fp::new(10372713026835877105), Fp::new(3326683776744491269), Fp::new(14727398596067689754)];

    let mut state = input;
    apply_mds(&mut state);
    assert_eq!(state, [Fp::new(4492048449332218649), Fp::new(9392835860526466398), Fp::new(16232853228886327184), Fp::new(15846269098692072137), Fp::new(14567433226760370772), Fp::new(17116909309761768247), Fp::new(11889014197980746978), Fp::new(3081435948815198752), Fp::new(4903164024627827161), Fp::new(12868223243463343321), Fp::new(14901150096207029478), Fp::new(2324844504041826258)]);

    let mut state = input;
    apply_mi(&mut state);
    assert_eq!(state, [Fp::new(12345), Fp::new(3752391060041160879), Fp::new(15627986016123969810), Fp::new(272274863545326354), Fp::new(14198238798616639364), Fp::new(5258838282640185721), Fp::new(13678121071643181427), Fp::new(16773159465674909947), Fp::new(10318676155020749839), Fp::new(18248100324298389817), Fp::new(7709907937836657377), Fp::new(133219304721788698)]);

    let mut state = input;
    cheap_matrix_mul(&mut state, 0);
    assert_eq!(state, [Fp::new(10100207008690308794), Fp::new(4756101940893776879), Fp::new(17941421380167498428), Fp::new(8051330360186082672), Fp::new(14117811148299677286), Fp::new(13388534965329180972), Fp::new(7492632366149707564), Fp::new(11807153883264460456), Fp::new(9311716185327360780), Fp::new(3743407605097060179), Fp::new(15149123892604113393), Fp::new(3075254390002402698)]);

    let mut state = input;
    cheap_matrix_mul(&mut state, NUM_PARTIAL_ROUNDS - 1);
    assert_eq!(state, [Fp::new(12018807853879426751), Fp::new(7042921723973512391), Fp::new(6198586017401692212), Fp::new(6764953775169316495), Fp::new(9929301499510585541), Fp::new(3338602971702710422), Fp::new(2885220939574317959), Fp::new(3863431885215371066), Fp::new(13947430864163107422), Fp::new(5936331597236868271), Fp::new(11957161455143704957), Fp::new(15050014585602410049)]);
}

#[test]
fn poseidon_12_8_sbox_exact() {
    let mut x = Fp::new(2);
    pow_7(&mut x);
    assert_eq!(x, Fp::new(128));

    let mut x = Fp::new(18446744069414584320);
    pow_7(&mut x);
    assert_eq!(x, Fp::new(18446744069414584320));

    let mut x = Fp::new(3141592653589793238);
    pow_7(&mut x);
    assert_eq!(x, Fp::new(16171554459480840020));

    let input = [Fp::new(12345), Fp::new(11400714819323210830), Fp::new(4354685569231824994), Fp::new(15755400388555023479), Fp::new(8709371138463637643), Fp::new(1663341888372251807), Fp::new(13064056707695450292), Fp::new(6018027457604064456), Fp::new(17418742276927262941), Fp::new(10372713026835877105), Fp::new(3326683776744491269), Fp::new(14727398596067689754)];
    let mut state = input;
    apply_full_sbox(&mut state);
    assert_eq!(state, [Fp::new(17639859232317548181), Fp::new(6859700218677036275), Fp::new(5633719194431006784), Fp::new(18423981369170430923), Fp::new(14330965802538496976), Fp::new(3082286082464722329), Fp::new(12024645623504675473), Fp::new(15099994977230270459), Fp::new(12360811101932270855), Fp::new(15857560872946616551), Fp::new(11326060294964120215), Fp::new(1995929016512248845)]);
}
