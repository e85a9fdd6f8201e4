use hash::field::Fp;
use hash::poseidon::poseidon_64_8_4::{
    apply_full_sbox, apply_mds, apply_mi, apply_partial_rounds, cheap_matrix_mul, pow_7,
    NUM_PARTIAL_ROUNDS, STATE_WIDTH,
};
use rand_core::{OsRng, RngCore};

const INV_MDS: [u64; 64] = [
    2805993759005513109,
    9147504304377222261,
    10186790348949908466,
    14593887338999270741,
    754246057045137869,
    7032091965313564683,
    1582334361384110419,
    3397285519391949275,
    4854500844368524779,
    10098090430690574760,
    4776794689272624636,
    3824493624547477502,
    7880080516980618326,
    4784754318766922912,
    14682982126367272069,
    11048698798146136721,
    5728540872142733961,
    4480410893053871176,
    7179190529091425284,
    15335996858688509857,
    15979436587334165290,
    12698028971270457269,
    6656122556167367674,
    12716264955457801139,
    12533436531238616290,
    12459430509359113179,
    2872844384164053774,
    12834621551333490355,
    9489022079507955045,
    18093193875432168257,
    5762615595691466663,
    15045951268629825033,
    3696383206447714891,
    1656434615172430686,
    2582746653014872077,
    2466838098042195452,
    5554473912855733206,
    10581922113031912974,
    9702048306507161406,
    16027878415542328398,
    7695647565936145912,
    1841536849998909894,
    8207677599946233797,
    984489521811764857,
    10552204016652084011,
    3237030036341585333,
    12468842907344746891,
    3654783101089988815,
    16163777916280498426,
    11432309482951562857,
    3933091443675401050,
    10725456228255711758,
    936322145433461710,
    12414383897933578835,
    8468500546255459165,
    10294541324314731828,
    15262814459942401561,
    3044730265830350360,
    16180800363771856626,
    9094248992460577815,
    4758274616028203942,
    435133410534299348,
    9477478930753224752,
    6484449757558383252,
];

/// The round constants of the partial rounds before they are moved into the
/// basis of the partial rounds: one row for each round, added to the whole
/// state.
const PARTIAL_ROUND_CONSTANTS: [[u64; 8]; 22] = [
    [
        1486402152218690509,
        5669161690283398991,
        17943970877073781734,
        17926851897715769433,
        13052837496695000666,
        18138113741095562305,
        94277733998400326,
        10891359798487446420,
    ],
    [
        18280773820738154043,
        13714589910668449566,
        10639034072771185213,
        14148790895768484219,
        18341268649720100165,
        3096672942770686236,
        12277596046563557393,
        400461754528604020,
    ],
    [
        12955488253560265444,
        11773677676764285572,
        4833837465239476573,
        17645852643693996619,
        6605134696140007471,
        588040525114200273,
        11001741536026769411,
        17917086578469406776,
    ],
    [
        14893530806420712543,
        727997185253761138,
        3443873847340254325,
        13095911531247069692,
        8330737046680948619,
        6014364575875986011,
        16851679856681761121,
        17817965496543149594,
    ],
    [
        12823640325246269760,
        13685256787930775147,
        4682652317564502291,
        4233879762155685988,
        11097258179564187322,
        10804761421745472094,
        16425553662684325570,
        10228342822391192470,
    ],
    [
        9655649918592982429,
        15982037224205216016,
        2789340379599583566,
        18446634980590558767,
        10126403438970932053,
        16987881356213159169,
        3276286096405673238,
        3687894116707946994,
    ],
    [
        5114517305918572341,
        14991840896855067187,
        6905420609119477701,
        5291651548570869410,
        17562609231968650695,
        9667605565853693715,
        13789802377508767704,
        4732612214544179724,
    ],
    [
        14723209762776543479,
        9416793489058151660,
        10253725536659176653,
        1714527036602866046,
        15323890982677230130,
        11730381972445282021,
        12216033376705242022,
        2072934925475504801,
    ],
    [
        16432743296706583079,
        1287600597097751716,
        10482065724875379357,
        3057917794534811538,
        4460508886913832366,
        4574242228824269567,
        15497000860205437868,
        5258779806711233780,
    ],
    [
        2917690869176376459,
        5552343643601973481,
        10031668054487390843,
        16702846882359561935,
        2597411547338924301,
        9410807915094873680,
        4038132370496189774,
        7514851419529898000,
    ],
    [
        16733481957374600673,
        12700052193129163508,
        1271853891477855996,
        3521154498147528034,
        1112717710392299742,
        18436629675246557921,
        4666660747304286620,
        17140737263918422602,
    ],
    [
        10050632638543068589,
        4307574521534980089,
        18215752451612116735,
        13480683264439855572,
        15555612733894467605,
        2859638725042112817,
        14083955561040135701,
        13687444950227705291,
    ],
    [
        13942956444831714793,
        13618865289968068724,
        6824181772510810610,
        13456233547779206111,
        4539269965952894262,
        3277758063669404111,
        16563706468587629579,
        14829270292839622012,
    ],
    [
        16149299494464346121,
        12729070118060987573,
        2876331595276499461,
        5896403089525423552,
        10054746017635131337,
        15891729401440579521,
        16686953925604982841,
        11488450620635904896,
    ],
    [
        5319968881416215882,
        6866530901595465606,
        5603564167992047509,
        262316557217489340,
        2327175406659849217,
        11157393233775540666,
        7173103141864251273,
        6841693016933379637,
    ],
    [
        4813399736209008072,
        13236902135375776760,
        974177555869830927,
        353051917785987980,
        13008662916818917899,
        1646935213262692017,
        701346762003107102,
        8522515238742904717,
    ],
    [
        17082894626802242899,
        818193631549863677,
        4354134903774900392,
        3125162783175126037,
        7939145240040161135,
        13921901388219906947,
        11058979495887741568,
        6810363166932110582,
    ],
    [
        9937044286652006583,
        1912910437194324315,
        10167077539441507575,
        16655767813717537030,
        5991613036521347162,
        11632505203258666311,
        15737012069006248518,
        14639613963426293324,
    ],
    [
        9604751035609530679,
        17541542306182196454,
        1015064463500134038,
        4057433516940758902,
        17752487478858501829,
        16536027494361526705,
        5418825649035372052,
        7416877752114204045,
    ],
    [
        5298568465954566493,
        16956613523505180500,
        3230856115770679244,
        2960635815920771091,
        1674467516137385144,
        16959180593939909097,
        6894998595391552502,
        12412712984870068318,
    ],
    [
        18094737559774241307,
        10930414073408006485,
        632205812023241520,
        4896184719192102012,
        18046601795562835805,
        4874799261050045371,
        14805515569601384764,
        14962150510141817503,
    ],
    [
        14603649285241593324,
        761417572415388640,
        1226185771089878470,
        3868252963893629278,
        10213206374844377176,
        12513523831859935725,
        5930658500326631305,
        12194321302721369377,
    ],
];

/// A field element drawn from the operating system's random source.
fn random_element(rng: &mut OsRng) -> Fp {
    Fp::new(rng.next_u64())
}

/// Multiplies the state by the inverse of the dense diffusion matrix.
fn apply_inv_mds(state: &mut [Fp; STATE_WIDTH]) {
    let mut result = [Fp::zero(); STATE_WIDTH];
    for (i, r) in result.iter_mut().enumerate() {
        for (j, s) in state.iter().enumerate() {
            *r = r.add(Fp::new(INV_MDS[i * STATE_WIDTH + j]).mul(*s));
        }
    }
    state.copy_from_slice(&result);
}

#[test]
fn mod_test_mds_8_4() {
    let mut state = [Fp::zero(); STATE_WIDTH];
    let mut rng = OsRng;

    for _ in 0..100 {
        for s in state.iter_mut() {
            *s = random_element(&mut rng);
        }

        let state_copy = state;
        apply_mds(&mut state);

        // Check that matrix multiplication was consistent
        apply_inv_mds(&mut state);
        assert_eq!(state, state_copy);
    }
}

#[test]
fn poseidon_8_4_partial_rounds_match_dense_rounds() {
    let mut rng = OsRng;
    for _ in 0..128 {
        let mut dense = [Fp::zero(); STATE_WIDTH];
        for s in dense.iter_mut() {
            *s = random_element(&mut rng);
        }
        let mut sparse = dense;

        // every partial round with the dense matrix
        for _ in 0..NUM_PARTIAL_ROUNDS {
            pow_7(&mut dense[0]);
            apply_mds(&mut dense);
        }

        // one change of basis, then the sparse matrices
        apply_mi(&mut sparse);
        for round in 0..NUM_PARTIAL_ROUNDS {
            pow_7(&mut sparse[0]);
            cheap_matrix_mul(&mut sparse, round);
        }

        assert_eq!(dense, sparse);
    }
}

#[test]
fn poseidon_8_4_partial_rounds_match_dense_rounds_with_constants() {
    let mut rng = OsRng;
    for _ in 0..128 {
        let mut dense = [Fp::zero(); STATE_WIDTH];
        for s in dense.iter_mut() {
            *s = random_element(&mut rng);
        }
        let mut optimised = dense;

        // every partial round as it is defined: the constants of the round
        // on every element, the seventh power of the first element, the
        // dense matrix
        for constants in PARTIAL_ROUND_CONSTANTS.iter() {
            for (s, c) in dense.iter_mut().zip(constants) {
                *s = s.add(Fp::new(*c));
            }
            pow_7(&mut dense[0]);
            apply_mds(&mut dense);
        }

        apply_partial_rounds(&mut optimised);

        assert_eq!(dense, optimised);
    }
}

#[test]
fn poseidon_8_4_linear_layers_exact() {
    let input = [Fp::new(12345), Fp::new(11400714819323210830), Fp::new(4354685569231824994), Fp::new(15755400388555023479), Fp::new(8709371138463637643), Fp::new(1663341888372251807), Fp::new(13064056707695450292), Fp::new(6018027457604064456)];

    let mut state = input;
    apply_mds(&mut state);
    assert_eq!(state, [Fp::new(1737099272281584229), Fp::new(9739542721730166897), Fp::new(2695690671245894315), Fp::new(9261833176510450622), Fp::new(5892411865012383978), Fp::new(6075162473223270892), Fp::new(13964992142110753121), Fp::new(11339991743264917030)]);

    let mut state = input;
    apply_mi(&mut state);
    assert_eq!(state, [Fp::new(12345), Fp::new(202939759261679905), Fp::new(3357865770010888116), Fp::new(16256728999236072623), Fp::new(1500805739989968525), Fp::new(9430141756358444398), Fp::new(16753646464989726910), Fp::new(733901386987177495)]);

    let mut state = input;
    cheap_matrix_mul(&mut state, 0);
    assert_eq!(state, [Fp::new(8626811786525137461), Fp::new(4096096722309086004), Fp::new(11879131668846125192), Fp::new(2144061319205421428), Fp::new(11765478475422177874), Fp::new(291143449976245462), Fp::new(1836037014239319851), Fp::new(4150816213018028438)]);

    let mut state = input;
    cheap_matrix_mul(&mut state, NUM_PARTIAL_ROUNDS - 1);
    assert_eq!(state, [Fp::new(5714962591883701075), Fp::new(13535701321464730173), Fp::new(5721071975325813493), Fp::new(12928381047351870984), Fp::new(12614002010176080735), Fp::new(14195890149085162612), Fp::new(933732385599830026), Fp::new(18095625472040736218)]);
}

#[test]
fn poseidon_8_4_sbox_exact() {
    let mut x = Fp::new(2);
    pow_7(&mut x);
    assert_eq!(x, Fp::new(128));

    let mut x = Fp::new(18446744069414584320);
    pow_7(&mut x);
    assert_eq!(x, Fp::new(18446744069414584320));

    let mut x = Fp::new(3141592653589793238);
    pow_7(&mut x);
    assert_eq!(x, Fp::new(16171554459480840020));

    let input = [Fp::new(12345), Fp::new(11400714819323210830), Fp::new(4354685569231824994), Fp::new(15755400388555023479), Fp::new(8709371138463637643), Fp::new(1663341888372251807), Fp::new(13064056707695450292), Fp::new(6018027457604064456)];
    let mut state = input;
    apply_full_sbox(&mut state);
    assert_eq!(state, [Fp::new(17639859232317548181), Fp::new(6859700218677036275), Fp::new(5633719194431006784), Fp::new(18423981369170430923), Fp::new(14330965802538496976), Fp::new(3082286082464722329), Fp::new(12024645623504675473), Fp::new(15099994977230270459)]);
}
