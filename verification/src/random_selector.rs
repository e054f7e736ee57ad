//! Daily random theme selection: a pool filter, a xorshift generator, a
//! Fisher-Yates shuffle and a selector that uses every theme once per round.

use vstd::prelude::*;

use crate::date::Date;

verus! {

// ── Pool filtering ──────────────────────────────────────────────────────────
/// Whether the pool holds a theme with the same name as `theme`.
pub open spec fn in_pool(pool: Seq<String>, theme: String) -> bool {
    exists|k: int| 0 <= k < pool.len() && #[trigger] pool[k]@ == theme@
}

/// The available themes that are in the pool, in their order.
pub open spec fn pool_filter(available: Seq<String>, pool: Seq<String>) -> Seq<String>
    decreases available.len(),
{
    if available.len() == 0 {
        Seq::empty()
    } else {
        let rest = pool_filter(available.drop_last(), pool);
        if in_pool(pool, available.last()) {
            rest.push(available.last())
        } else {
            rest
        }
    }
}

/// The pool filter keeps exactly the available themes whose name equals the name of
/// some pool entry, in their order: every theme kept is an available theme equal to a
/// pool entry, and every available theme equal to a pool entry is kept.
pub proof fn lemma_pool_filter_keeps_exact_names(available: Seq<String>, pool: Seq<String>)
    ensures
        forall|j: int|
            0 <= j < pool_filter(available, pool).len() ==> (exists|k: int|
                0 <= k < pool.len() && pool[k]@ == (#[trigger] pool_filter(available, pool)[j])@)
                && available.contains(pool_filter(available, pool)[j]),
        forall|i: int, k: int|
            0 <= i < available.len() && 0 <= k < pool.len() && #[trigger] pool[k]@
                == (#[trigger] available[i])@ ==> pool_filter(available, pool).contains(
                available[i],
            ),
    decreases available.len(),
{
    if available.len() > 0 {
        let rest = available.drop_last();
        lemma_pool_filter_keeps_exact_names(rest, pool);
        let kept = pool_filter(available, pool);
        let kept_rest = pool_filter(rest, pool);
        assert forall|j: int| 0 <= j < kept.len() implies (exists|k: int|
            0 <= k < pool.len() && pool[k]@ == (#[trigger] kept[j])@) && available.contains(
            kept[j],
        ) by {
            if j < kept_rest.len() {
                assert(kept[j] == kept_rest[j]);
                let m = choose|m: int| 0 <= m < rest.len() && rest[m] == kept_rest[j];
                assert(available[m] == rest[m]);
            } else {
                assert(kept[j] == available.last());
                assert(available[available.len() - 1] == available.last());
            }
        }
        assert forall|i: int, k: int|
            0 <= i < available.len() && 0 <= k < pool.len() && #[trigger] pool[k]@
                == (#[trigger] available[i])@ implies kept.contains(available[i]) by {
            if i < available.len() - 1 {
                assert(rest[i] == available[i]);
                assert(pool[k]@ == rest[i]@);
                let m = choose|m: int| 0 <= m < kept_rest.len() && kept_rest[m] == rest[i];
                assert(kept[m] == kept_rest[m]);
            } else {
                assert(in_pool(pool, available.last()));
                assert(kept[kept.len() - 1] == available.last());
            }
        }
    }
}

/// Whether `pool` holds a theme named like `theme`.
pub fn pool_contains(pool: &[String], theme: &String) -> (found: bool)
    ensures
        found == in_pool(pool@, *theme),
{
    let mut k: usize = 0;
    while k < pool.len()
        invariant
            k <= pool@.len(),
            forall|m: int| 0 <= m < k ==> #[trigger] pool@[m]@ != theme@,
        decreases pool@.len() - k,
    {
        if pool[k] == *theme {
            return true;
        }
        k = k + 1;
    }
    false
}

/// Filters the available themes by a user-specified pool.
///
/// `None` keeps every available theme; `Some(pool)` keeps the available themes
/// whose names are in the pool, in the order of `available`. Pool entries that
/// are not available are ignored; names compare case-sensitively.
pub fn filter_themes_by_pool(available: &[String], pool: Option<&Vec<String>>) -> (themes: Vec<
    String,
>)
    ensures
        pool is None ==> themes@ == available@,
        pool matches Some(p) ==> themes@ == pool_filter(available@, p@),
{
    let mut themes: Vec<String> = Vec::new();
    let mut i: usize = 0;
    while i < available.len()
        invariant
            i <= available@.len(),
            pool is None ==> themes@ == available@.take(i as int),
            pool matches Some(p) ==> themes@ == pool_filter(available@.take(i as int), p@),
        decreases available@.len() - i,
    {
        let theme = &available[i];
        proof {
            assert(available@.take(i as int + 1).drop_last() =~= available@.take(i as int));
            assert(available@.take(i as int + 1).last() == *theme);
        }
        let keep = match pool {
            Some(p) => pool_contains(p.as_slice(), theme),
            None => true,
        };
        if keep {
            themes.push(theme.clone());
        }
        proof {
            if pool is None {
                assert(themes@ =~= available@.take(i as int + 1));
            }
        }
        i = i + 1;
    }
    assert(available@.take(available@.len() as int) =~= available@);
    themes
}

// ── Xorshift generator ──────────────────────────────────────────────────────
/// One xorshift64 step (shifts 13, 7, 17).
pub open spec fn xorshift(x: u64) -> u64 {
    let a = x ^ (x << 13u64);
    let b = a ^ (a >> 7u64);
    b ^ (b << 17u64)
}

/// A xorshift step never maps a non-zero state to zero.
pub proof fn lemma_xorshift_nonzero(x: u64)
    requires
        x != 0,
    ensures
        xorshift(x) != 0,
{
    assert(x != 0 ==> (x ^ (x << 13u64)) != 0) by (bit_vector);
    let a = x ^ (x << 13u64);
    assert(a != 0 ==> (a ^ (a >> 7u64)) != 0) by (bit_vector);
    let b = a ^ (a >> 7u64);
    assert(b != 0 ==> (b ^ (b << 17u64)) != 0) by (bit_vector);
}

/// Simple xorshift64 pseudo-random generator.
pub struct SimpleRng {
    state: u64,
}

/// The sequence with the elements at `i` and `j` exchanged.
pub open spec fn swap_seq<T>(s: Seq<T>, i: int, j: int) -> Seq<T> {
    s.update(i, s[j]).update(j, s[i])
}

/// Fisher-Yates from index `top` down to 1: the shuffled sequence and the final
/// generator state.
pub open spec fn shuffle_steps<T>(s: Seq<T>, state: u64, top: nat) -> (Seq<T>, u64)
    decreases top,
{
    if top == 0 {
        (s, state)
    } else {
        let x = xorshift(state);
        let j = ((x as usize) as int) % ((top + 1) as int);
        shuffle_steps(swap_seq(s, top as int, j), x, (top - 1) as nat)
    }
}

/// The first index of a Fisher-Yates pass over `n` elements.
pub open spec fn top_index(n: nat) -> nat {
    if n == 0 {
        0
    } else {
        (n - 1) as nat
    }
}

/// Exchanges two elements of a vector (`<[T]>::swap`).
#[verifier::external_body]
fn vec_swap<T>(v: &mut Vec<T>, i: usize, j: usize)
    requires
        i < old(v)@.len(),
        j < old(v)@.len(),
    ensures
        final(v)@ == swap_seq(old(v)@, i as int, j as int),
{
    v.swap(i, j);
}

/// Exchanging two elements keeps the multiset of elements.
pub proof fn lemma_swap_multiset<T>(s: Seq<T>, i: int, j: int)
    requires
        0 <= i < s.len(),
        0 <= j < s.len(),
    ensures
        swap_seq(s, i, j).to_multiset() =~= s.to_multiset(),
        swap_seq(s, i, j).len() == s.len(),
{
    broadcast use vstd::seq_lib::group_to_multiset_ensures;
    broadcast use vstd::multiset::group_multiset_axioms;

    let s1 = s.update(i, s[j]);
    assert(s1[j] == s[j]);
    assert(s.to_multiset().count(s[i]) > 0);
    assert(s.to_multiset().insert(s[j]).count(s[i]) > 0);
}

impl SimpleRng {
    /// Current generator state.
    pub closed spec fn state(&self) -> u64 {
        self.state
    }

    /// A generator seeded with `seed`; a zero seed becomes one, since xorshift
    /// requires a non-zero state.
    pub fn new(seed: u64) -> (rng: SimpleRng)
        ensures
            rng.state() == (if seed == 0 {
                1
            } else {
                seed
            }),
            rng.state() != 0,
    {
        SimpleRng { state: if seed == 0 { 1 } else { seed } }
    }

    /// Advances the generator and returns the new state.
    pub fn next(&mut self) -> (x: u64)
        ensures
            x == xorshift(old(self).state()),
            final(self).state() == x,
    {
        let mut x = self.state;
        x = x ^ (x << 13u64);
        x = x ^ (x >> 7u64);
        x = x ^ (x << 17u64);
        self.state = x;
        x
    }

    /// Fisher-Yates shuffle driven by this generator.
    pub fn shuffle<T>(&mut self, items: &mut Vec<T>)
        ensures
            (final(items)@, final(self).state()) == shuffle_steps(
                old(items)@,
                old(self).state(),
                top_index(old(items)@.len()),
            ),
            final(items)@.to_multiset() == old(items)@.to_multiset(),
            final(items)@.len() == old(items)@.len(),
    {
        let n = items.len();
        if n <= 1 {
            return;
        }
        let mut i: usize = n - 1;
        while i >= 1
            invariant
                n == items@.len(),
                n == old(items)@.len(),
                i < n,
                shuffle_steps(items@, self.state(), i as nat) == shuffle_steps(
                    old(items)@,
                    old(self).state(),
                    top_index(n as nat),
                ),
                items@.to_multiset() == old(items)@.to_multiset(),
            decreases i,
        {
            let x = self.next();
            let j = (x as usize) % (i + 1);
            proof {
                lemma_swap_multiset(items@, i as int, j as int);
            }
            vec_swap(items, i, j);
            i = i - 1;
        }
    }
}

/// A shuffle is a permutation: it keeps the multiset of elements.
pub proof fn lemma_shuffle_is_permutation<T>(s: Seq<T>, state: u64, top: nat)
    requires
        top < s.len() || (top == 0 && s.len() == 0),
    ensures
        shuffle_steps(s, state, top).0.to_multiset() == s.to_multiset(),
        shuffle_steps(s, state, top).0.len() == s.len(),
    decreases top,
{
    if top > 0 {
        let x = xorshift(state);
        let j = ((x as usize) as int) % ((top + 1) as int);
        lemma_swap_multiset(s, top as int, j);
        lemma_shuffle_is_permutation(swap_seq(s, top as int, j), x, (top - 1) as nat);
    }
}

/// Equal seeds give equal sequences of numbers.
pub proof fn lemma_rng_deterministic(a: SimpleRng, b: SimpleRng)
    requires
        a.state() == b.state(),
    ensures
        xorshift(a.state()) == xorshift(b.state()),
{
}

// ── Random seed ─────────────────────────────────────────────────────────────
#[verifier::external_type_specification]
#[verifier::external_body]
pub struct ExGetrandomError(getrandom::Error);

/// Eight bytes from the operating system's entropy source (`getrandom::getrandom`),
/// read in native byte order. Nothing is claimed of the value.
#[verifier::external_body]
fn os_random_u64() -> Result<u64, getrandom::Error> {
    let mut buf = [0u8; 8];
    getrandom::getrandom(&mut buf)?;
    Ok(u64::from_ne_bytes(buf))
}

/// Nanoseconds since the Unix epoch (`SystemTime::now`), truncated to 64 bits;
/// zero if the clock reads before the epoch. Nothing is claimed of the value.
#[verifier::external_body]
fn unix_time_nanos() -> u64 {
    std::time::SystemTime::now().duration_since(std::time::UNIX_EPOCH).unwrap_or_default().as_nanos()
        as u64
}

/// A seed for the daily shuffle: the OS entropy source, or the clock if that
/// source fails.
pub fn get_random_seed() -> u64 {
    match os_random_u64() {
        Ok(seed) => seed,
        Err(_) => unix_time_nanos(),
    }
}

// ── Daily selector ──────────────────────────────────────────────────────────
/// Selects one theme per day from a shuffled order, so that no theme repeats
/// before every theme of the round has been used.
pub struct DailyRandomThemeSelector {
    last_applied_date: Option<Date>,
    shuffle_order: Vec<String>,
    current_index: usize,
    round: Ghost<Seq<String>>,
}

impl DailyRandomThemeSelector {
    /// The date a theme was last applied on.
    pub closed spec fn last_date(&self) -> Option<Date> {
        self.last_applied_date
    }

    /// The shuffled order of the current round.
    pub closed spec fn order(&self) -> Seq<String> {
        self.shuffle_order@
    }

    /// How many themes of the current round have been handed out.
    pub closed spec fn used(&self) -> int {
        self.current_index as int
    }

    /// The available themes the current round was shuffled from.
    pub closed spec fn round(&self) -> Seq<String> {
        self.round@
    }

    /// The selector's invariant: at most the whole order is used, and the
    /// order is a permutation of the round's themes.
    pub open spec fn consistent(&self) -> bool {
        &&& self.used() <= self.order().len()
        &&& self.order().to_multiset() == self.round().to_multiset()
    }

    /// Every selector is consistent.
    #[verifier::type_invariant]
    spec fn always_consistent(self) -> bool {
        self.consistent()
    }

    /// A selector with no history.
    pub fn new() -> (selector: Self)
        ensures
            selector.consistent(),
            selector.last_date() is None,
            selector.order().len() == 0,
            selector.used() == 0,
    {
        DailyRandomThemeSelector {
            last_applied_date: None,
            shuffle_order: Vec::new(),
            current_index: 0,
            round: Ghost(Seq::empty()),
        }
    }

    /// Whether the theme must be switched: on the first run or on a new day.
    pub fn needs_switch(&self, today: &Date) -> (switch: bool)
        ensures
            switch == (match self.last_date() {
                None => true,
                Some(date) => date != *today,
            }),
    {
        match &self.last_applied_date {
            None => true,
            Some(date) => *date != *today,
        }
    }

    /// Whether the next theme of the round can still be handed out: some of the round is
    /// left and its next theme is among `available`.
    pub open spec fn round_goes_on(&self, available: Seq<String>) -> bool {
        self.used() < self.order().len() && in_pool(available, self.order()[self.used()])
    }

    /// Selects the next theme from the available themes.
    ///
    /// Returns `None` when no theme is available. The round's next theme is handed out
    /// while it is still available; when the round is used up, or its next theme is no
    /// longer available, the available themes are shuffled into a new round.
    pub fn select_next(&mut self, available_themes: &[String]) -> (selected: Option<String>)
        ensures
            final(self).consistent(),
            final(self).last_date() == old(self).last_date(),
            available_themes@.len() == 0 ==> selected is None && final(self).order() == old(
                self,
            ).order() && final(self).used() == old(self).used() && final(self).round() == old(
                self,
            ).round(),
            available_themes@.len() > 0 ==> (selected matches Some(t) && in_pool(
                available_themes@,
                t,
            )),
            available_themes@.len() > 0 && !old(self).round_goes_on(available_themes@) ==> {
                &&& final(self).round() == available_themes@
                &&& final(self).order().to_multiset() == available_themes@.to_multiset()
                &&& final(self).used() == 1
                &&& selected == Some(final(self).order()[0])
            },
            available_themes@.len() > 0 && old(self).round_goes_on(available_themes@) ==> {
                &&& final(self).round() == old(self).round()
                &&& final(self).order() == old(self).order()
                &&& final(self).used() == old(self).used() + 1
                &&& selected == Some(old(self).order()[old(self).used()])
            },
    {
        proof {
            use_type_invariant(&*self);
        }
        if available_themes.len() == 0 {
            return None;
        }
        let goes_on = self.current_index < self.shuffle_order.len() && pool_contains(
            available_themes,
            &self.shuffle_order[self.current_index],
        );
        if !goes_on {
            let mut order: Vec<String> = Vec::new();
            let mut i: usize = 0;
            while i < available_themes.len()
                invariant
                    i <= available_themes@.len(),
                    order@ == available_themes@.take(i as int),
                decreases available_themes@.len() - i,
            {
                order.push(available_themes[i].clone());
                assert(order@ =~= available_themes@.take(i as int + 1));
                i = i + 1;
            }
            assert(available_themes@.take(available_themes@.len() as int) =~= available_themes@);
            let mut rng = SimpleRng::new(get_random_seed());
            rng.shuffle(&mut order);
            let theme = order[0].clone();
            proof {
                lemma_round_has_no_repeats(order@, available_themes@, 1);
                let k = choose|k: int| 0 <= k < available_themes@.len() && available_themes@[k]
                    == order@[0];
                assert(available_themes@[k]@ == theme@);
            }
            *self = DailyRandomThemeSelector {
                last_applied_date: self.last_applied_date,
                shuffle_order: order,
                current_index: 1,
                round: Ghost(available_themes@),
            };
            return Some(theme);
        }
        let theme = self.shuffle_order[self.current_index].clone();
        self.current_index = self.current_index + 1;
        Some(theme)
    }

    /// Records that a theme was applied on `today`.
    pub fn mark_applied(&mut self, today: &Date)
        ensures
            final(self).consistent(),
            final(self).last_date() == Some(*today),
            final(self).order() == old(self).order(),
            final(self).used() == old(self).used(),
            final(self).round() == old(self).round(),
    {
        proof {
            use_type_invariant(&*self);
        }
        self.last_applied_date = Some(*today);
    }
}

/// Within a round, the themes handed out so far come from the round's themes,
/// and when those are distinct no theme has been handed out twice.
pub proof fn lemma_round_has_no_repeats(order: Seq<String>, round: Seq<String>, used: int)
    requires
        0 <= used <= order.len(),
        order.to_multiset() == round.to_multiset(),
    ensures
        forall|k: int| 0 <= k < used ==> round.contains(#[trigger] order[k]),
        round.no_duplicates() ==> order.take(used).no_duplicates(),
{
    broadcast use vstd::seq_lib::group_to_multiset_ensures;

    assert forall|k: int| 0 <= k < used implies round.contains(#[trigger] order[k]) by {
        let x = order[k];
        assert(order.contains(x)) by {
            assert(0 <= k < order.len() && order[k] == x);
        }
        assert(order.to_multiset().count(x) > 0);
        assert(round.to_multiset().count(x) > 0);
    }
    if round.no_duplicates() {
        round.lemma_multiset_has_no_duplicates();
        order.lemma_multiset_has_no_duplicates_conv();
        let t = order.take(used);
        assert forall|a: int, b: int| 0 <= a < t.len() && 0 <= b < t.len() && a != b implies t[a]
            != t[b] by {
            assert(t[a] == order[a]);
            assert(t[b] == order[b]);
        }
    }
}

impl Default for DailyRandomThemeSelector {
    fn default() -> (selector: Self)
        ensures
            selector.consistent(),
            selector.last_date() is None,
            selector.order().len() == 0,
            selector.used() == 0,
    {
        Self::new()
    }
}

} // verus!
