//! The language roll: a weighted draw over a fixed table of languages.
use vstd::prelude::*;
use rand::Rng;
use crate::queue_text::{decimal, decimal_string, pad2, pad2_string};

verus! {

/// A language of the roll, with its weight and whether rolling it grants a
/// free reroll.
pub struct AoC2022Lang<'a> {
    pub lang: &'a str,
    pub weight: i64,
    pub free_reroll: bool,
}

impl<'a> AoC2022Lang<'a> {
    pub fn new(lang: &'a str, weight: i64, free_reroll: bool) -> (r: Self)
        ensures
            r.lang == lang,
            r.weight == weight,
            r.free_reroll == free_reroll,
    {
        AoC2022Lang { lang, weight, free_reroll }
    }
}

/// Number of languages in the table.
pub const LANG_COUNT: usize = 16;

/// Weight of the language at position `i` of the table.
pub open spec fn lang_weight(i: int) -> i64 {
    if i < 4 {
        100
    } else if i < 7 {
        90
    } else if i < 9 {
        10
    } else if i < 13 {
        2
    } else {
        1
    }
}

/// Name of the language at position `i` of the table.
pub open spec fn lang_name(i: int) -> Seq<char> {
    if i == 0 {
        "Go"@
    } else if i == 1 {
        "C#/Java"@
    } else if i == 2 {
        "C++"@
    } else if i == 3 {
        "PHP"@
    } else if i == 4 {
        "Python"@
    } else if i == 5 {
        "JS/TS"@
    } else if i == 6 {
        "Lua"@
    } else if i == 7 {
        "Slobodni izbor"@
    } else if i == 8 {
        "Matijoš bira"@
    } else if i == 9 {
        "Bash"@
    } else if i == 10 {
        "Scratch"@
    } else if i == 11 {
        "Rust"@
    } else if i == 12 {
        "C"@
    } else if i == 13 {
        "Elixir"@
    } else if i == 14 {
        "Julia"@
    } else {
        "HolyC"@
    }
}

/// Sum of the weights of the languages at positions `0..=i`.
pub open spec fn weight_prefix(i: int) -> int
    decreases i + 1,
{
    if i < 0 {
        0
    } else {
        weight_prefix(i - 1) + lang_weight(i)
    }
}

pub proof fn lemma_weight_prefix_bounds(i: int)
    requires
        -1 <= i,
    ensures
        i + 1 <= weight_prefix(i) <= 100 * (i + 1),
    decreases i + 1,
{
    if i >= 0 {
        lemma_weight_prefix_bounds(i - 1);
    }
}

/// The table of languages, in order.
pub fn languages() -> (r: Vec<AoC2022Lang<'static>>)
    ensures
        r@.len() == LANG_COUNT,
        forall|i: int| 0 <= i < LANG_COUNT ==> #[trigger] r@[i].weight == lang_weight(i),
        forall|i: int| 0 <= i < LANG_COUNT ==> #[trigger] r@[i].free_reroll == (i >= 13),
        forall|i: int| 0 <= i < LANG_COUNT ==> #[trigger] r@[i].lang@ == lang_name(i),
{
    vec![
        AoC2022Lang::new("Go", 100, false),
        AoC2022Lang::new("C#/Java", 100, false),
        AoC2022Lang::new("C++", 100, false),
        AoC2022Lang::new("PHP", 100, false),
        AoC2022Lang::new("Python", 90, false),
        AoC2022Lang::new("JS/TS", 90, false),
        AoC2022Lang::new("Lua", 90, false),
        AoC2022Lang::new("Slobodni izbor", 10, false),
        AoC2022Lang::new("Matijoš bira", 10, false),
        AoC2022Lang::new("Bash", 2, false),
        AoC2022Lang::new("Scratch", 2, false),
        AoC2022Lang::new("Rust", 2, false),
        AoC2022Lang::new("C", 2, false),
        AoC2022Lang::new("Elixir", 1, true),
        AoC2022Lang::new("Julia", 1, true),
        AoC2022Lang::new("HolyC", 1, true),
    ]
}

/// Running sums of the weights: entry `i` is the sum of the weights up to
/// and including language `i`.
pub fn lang_weights_pool() -> (r: Vec<i64>)
    ensures
        r@.len() == LANG_COUNT,
        forall|i: int| 0 <= i < LANG_COUNT ==> #[trigger] r@[i] == weight_prefix(i),
{
    let langs = languages();
    let mut pool: Vec<i64> = Vec::new();
    let mut sum: i64 = 0;
    let mut i: usize = 0;
    while i < LANG_COUNT
        invariant
            i <= LANG_COUNT,
            langs@.len() == LANG_COUNT,
            forall|j: int| 0 <= j < LANG_COUNT ==> #[trigger] langs@[j].weight == lang_weight(j),
            sum == weight_prefix(i - 1),
            pool@.len() == i,
            forall|j: int| 0 <= j < i ==> #[trigger] pool@[j] == weight_prefix(j),
        decreases LANG_COUNT - i,
    {
        proof {
            lemma_weight_prefix_bounds(i as int);
        }
        sum = sum + langs[i].weight;
        pool.push(sum);
        i = i + 1;
    }
    pool
}

/// The largest value a roll can take: the sum of all weights.
pub fn maximum_weight_value() -> (r: i64)
    ensures
        r == weight_prefix(LANG_COUNT - 1),
{
    let pool = lang_weights_pool();
    pool[LANG_COUNT - 1]
}

/// The language a roll of `n` selects: the first whose running sum reaches
/// `n`; none when `n` exceeds the sum of all weights.
pub open spec fn is_pick(n: int, i: int) -> bool {
    0 <= i < LANG_COUNT && weight_prefix(i) >= n && forall|j: int| 0 <= j < i ==> weight_prefix(j) < n
}

/// The position of the language a roll of `n` selects.
pub fn pick_language(n: i64) -> (r: Option<usize>)
    ensures
        r matches Some(i) ==> is_pick(n as int, i as int),
        r is None ==> forall|j: int| 0 <= j < LANG_COUNT ==> weight_prefix(j) < n,
{
    let pool = lang_weights_pool();
    let mut i: usize = 0;
    while i < LANG_COUNT
        invariant
            i <= LANG_COUNT,
            pool@.len() == LANG_COUNT,
            forall|j: int| 0 <= j < LANG_COUNT ==> #[trigger] pool@[j] == weight_prefix(j),
            forall|j: int| 0 <= j < i ==> weight_prefix(j) < n,
        decreases LANG_COUNT - i,
    {
        if pool[i] >= n {
            return Some(i);
        }
        i = i + 1;
    }
    None
}

/// The share of a weight in the total, in hundredths of a percent, rounded
/// to the nearest.
pub open spec fn share_hundredths(weight: int, total: int) -> int {
    (weight * 20000 + total) / (2 * total)
}

/// The answer naming language `i` and its chance, as a percentage with two
/// decimals.
pub open spec fn lang_line(i: int) -> Seq<char> {
    let pct = share_hundredths(lang_weight(i) as int, weight_prefix(LANG_COUNT - 1));
    lang_name(i) + " ("@ + decimal((pct / 100) as nat) + "."@ + pad2((pct % 100) as nat) + "%)"@
}

/// What a roll of `n` answers: the language it selects, or, beyond every
/// language, a fixed answer.
pub open spec fn roll_text(n: int) -> Seq<char> {
    if exists|i: int| is_pick(n, i) {
        lang_line(choose|i: int| is_pick(n, i))
    } else {
        "Dober kod pajdo."@
    }
}

pub proof fn lemma_pick_unique(n: int, i: int, k: int)
    requires
        is_pick(n, i),
        is_pick(n, k),
    ensures
        i == k,
{
}

/// Relies on `rand::Rng::gen_range` over `rand::thread_rng()`: a value drawn
/// from the inclusive range `low..=high`, which must not be empty.
#[verifier::external_body]
fn draw_between(low: i64, high: i64) -> (r: i64)
    requires
        low <= high,
    ensures
        low <= r <= high,
{
    rand::thread_rng().gen_range(low..=high)
}

/// The answer to a roll of `n`.
pub fn roll_reply(n: i64) -> (r: String)
    ensures
        r@ == roll_text(n as int),
{
    let langs = languages();
    let max = maximum_weight_value();
    proof {
        lemma_weight_prefix_bounds(LANG_COUNT - 1);
    }
    match pick_language(n) {
        Some(i) => {
            let w = langs[i].weight;
            let pct = (w * 20000 + max) / (2 * max);
            assert(pct >= 0) by (nonlinear_arith)
                requires
                    w >= 1,
                    max >= 1,
                    pct == (w * 20000 + max) / (2 * max),
            ;
            let mut s = langs[i].lang.to_owned();
            s.append(" (");
            let whole = decimal_string((pct / 100) as u64);
            s.append(whole.as_str());
            s.append(".");
            let frac = pad2_string((pct % 100) as u64);
            s.append(frac.as_str());
            s.append("%)");
            proof {
                let k = choose|k: int| is_pick(n as int, k);
                lemma_pick_unique(n as int, i as int, k);
                assert(s@ =~= lang_line(i as int));
            }
            s
        },
        None => {
            assert(!exists|i: int| is_pick(n as int, i));
            "Dober kod pajdo.".to_owned()
        },
    }
}

/// The roll command.
pub struct RollCommand;

impl RollCommand {
    /// Draws a roll between one and the sum of all weights and answers it.
    pub fn roll(&self) -> (r: String)
        ensures
            exists|n: int| 1 <= n <= weight_prefix(LANG_COUNT - 1) && r@ == roll_text(n),
    {
        proof {
            lemma_weight_prefix_bounds(LANG_COUNT - 1);
        }
        let max = maximum_weight_value();
        let n = draw_between(1, max);
        roll_reply(n)
    }
}

} // verus!
