//! Profile validation and the profile-id rule.

use vstd::prelude::*;
use crate::constants::{HOLD_REPEAT_RATE_MAX_MS, HOLD_REPEAT_RATE_MIN_MS, MACRO_MAX_DELAY_MS, MACRO_MAX_STEPS};
use crate::error::ErrorCode;
use crate::profile::{key_fits_model, Bindings, Profile};
use crate::text::{
    ascii_lower, ascii_lower_exec, chars_of, decimal, from_chars, is_ascii_digit, is_ascii_lower,
    lemma_decimal_digits, lemma_decimal_injective, push_decimal, trim_chars,
    trim_seq,
};
use crate::types::{
    steps_model, Action, ActionModel, DeviceModel, KeyId, Lighting, LightingEffect, MacroKind,
    KeyToken, MacroKindModel, MacroStep, MacroStepModel, Modifier,
};

verus! {

pub const PROFILE_ID_MAX_LEN: usize = 64;
pub const PROFILE_NAME_MAX_LEN: usize = 64;
pub const BRIGHTNESS_MAX: u8 = 100;
pub const MODIFIERS_MAX: usize = 4;
/// Digits reserved for the collision suffix when trimming the base.
pub const SLUG_MAX_SUFFIX_DIGITS: usize = 2;
/// The id a name with no letter or digit gets.
pub const SLUG_FALLBACK: &'static str = "profile";
/// The second copy of a name is `-2`, never `-1`: the first has no suffix.
pub const SLUG_FIRST_SUFFIX: u64 = 2;

/// An id is 1 to 64 characters of lowercase ASCII letters, digits and
/// hyphens, and starts with a letter or digit.
pub open spec fn valid_id_spec(s: Seq<char>) -> bool {
    &&& 1 <= s.len() <= 64
    &&& is_ascii_lower(s[0]) || is_ascii_digit(s[0])
    &&& forall|i: int| 1 <= i < s.len() ==> id_char(#[trigger] s[i])
}

pub open spec fn id_char(c: char) -> bool {
    is_ascii_lower(c) || is_ascii_digit(c) || c == '-'
}

/// A name has 1 to 64 characters once trimmed of white space.
pub open spec fn valid_name_spec(s: Seq<char>) -> bool {
    1 <= trim_seq(s).len() <= 64
}

pub open spec fn no_duplicates<T>(s: Seq<T>) -> bool {
    forall|i: int, j: int| 0 <= i < j < s.len() ==> s[i] != s[j]
}

pub open spec fn device_models_ok(models: Seq<DeviceModel>) -> bool {
    models.len() > 0 && no_duplicates(models)
}

pub open spec fn lighting_ok(l: Lighting) -> bool {
    l.brightness <= 100 && !(l.effect == LightingEffect::Static && l.color is None)
}

pub open spec fn modifiers_ok(mods: Seq<Modifier>) -> bool {
    mods.len() <= 4 && no_duplicates(mods)
}

pub open spec fn macro_ok(steps: Seq<MacroStepModel>) -> bool {
    &&& 1 <= steps.len() <= MACRO_MAX_STEPS
    &&& forall|i: int| 0 <= i < steps.len() ==> step_ok(#[trigger] steps[i])
}

pub open spec fn step_ok(step: MacroStepModel) -> bool {
    &&& step.delay_ms <= MACRO_MAX_DELAY_MS
    &&& match step.kind {
        MacroKindModel::Key { modifiers, .. } => modifiers_ok(modifiers),
        MacroKindModel::Mouse { .. } => true,
    }
}

/// What a well-formed action is. A hold-repeat wraps a plain key and
/// repeats at a rate inside the allowed band.
pub open spec fn action_ok(a: ActionModel) -> bool {
    match a {
        ActionModel::Key { modifiers, .. } => modifiers_ok(modifiers),
        ActionModel::Macro { steps } => macro_ok(steps),
        ActionModel::Mouse { .. } => true,
        ActionModel::SwitchProfile { .. } => true,
        ActionModel::NextProfile => true,
        ActionModel::HoldRepeat { inner, rate_ms } => {
            &&& HOLD_REPEAT_RATE_MIN_MS <= rate_ms <= HOLD_REPEAT_RATE_MAX_MS
            &&& match *inner {
                ActionModel::Key { modifiers, .. } => modifiers_ok(modifiers),
                _ => false,
            }
        },
    }
}

/// What a profile must be for the app to load it.
pub open spec fn profile_ok(p: Profile) -> bool {
    &&& !p.unknown_key_ids
    &&& valid_id_spec(p.id@)
    &&& valid_name_spec(p.name@)
    &&& device_models_ok(p.device_models@)
    &&& lighting_ok(p.lighting)
    &&& forall|k: KeyId| #[trigger] p.bindings@.contains_key(k) ==> action_ok(p.bindings@[k])
}

pub fn valid_id(id: &str) -> (r: bool)
    ensures r == valid_id_spec(id@),
{
    let v = chars_of(id);
    if v.len() == 0 || v.len() > PROFILE_ID_MAX_LEN {
        return false;
    }
    let first = v[0];
    if !(('a' <= first && first <= 'z') || ('0' <= first && first <= '9')) {
        return false;
    }
    let mut i: usize = 1;
    while i < v.len()
        invariant
            1 <= i <= v.len(),
            v@ == id@,
            forall|j: int| 1 <= j < i ==> id_char(#[trigger] v@[j]),
        decreases v.len() - i,
    {
        let c = v[i];
        if !(('a' <= c && c <= 'z') || ('0' <= c && c <= '9') || c == '-') {
            return false;
        }
        i += 1;
    }
    true
}

pub fn valid_name(name: &str) -> (r: bool)
    ensures r == valid_name_spec(name@),
{
    let v = chars_of(name);
    let t = trim_chars(&v);
    1 <= t.len() && t.len() <= PROFILE_NAME_MAX_LEN
}

pub fn validate_device_models(models: &Vec<DeviceModel>) -> (r: Result<(), ErrorCode>)
    ensures
        r is Ok == device_models_ok(models@),
        r is Err ==> r == Err::<(), ErrorCode>(ErrorCode::InvalidProfile),
{
    if models.len() == 0 {
        return Err(ErrorCode::InvalidProfile);
    }
    let mut i: usize = 0;
    while i < models.len()
        invariant
            i <= models.len(),
            forall|a: int, b: int| 0 <= a < b < i ==> models@[a] != models@[b],
        decreases models.len() - i,
    {
        let mut j: usize = 0;
        while j < i
            invariant
                j <= i < models.len(),
                forall|a: int| 0 <= a < j ==> models@[a] != models@[i as int],
            decreases i - j,
        {
            if models[j] == models[i] {
                return Err(ErrorCode::InvalidProfile);
            }
            j += 1;
        }
        i += 1;
    }
    Ok(())
}

pub fn validate_modifiers(modifiers: &Vec<Modifier>) -> (r: Result<(), ErrorCode>)
    ensures
        r is Ok == modifiers_ok(modifiers@),
        r is Err ==> r == Err::<(), ErrorCode>(ErrorCode::InvalidProfile),
{
    if modifiers.len() > MODIFIERS_MAX {
        return Err(ErrorCode::InvalidProfile);
    }
    let mut i: usize = 0;
    while i < modifiers.len()
        invariant
            i <= modifiers.len(),
            forall|a: int, b: int| 0 <= a < b < i ==> modifiers@[a] != modifiers@[b],
        decreases modifiers.len() - i,
    {
        let mut j: usize = 0;
        while j < i
            invariant
                j <= i < modifiers.len(),
                forall|a: int| 0 <= a < j ==> modifiers@[a] != modifiers@[i as int],
            decreases i - j,
        {
            if modifiers[j] == modifiers[i] {
                return Err(ErrorCode::InvalidProfile);
            }
            j += 1;
        }
        i += 1;
    }
    Ok(())
}

pub fn validate_lighting(lighting: &Lighting) -> (r: Result<(), ErrorCode>)
    ensures
        r is Ok == lighting_ok(*lighting),
        r is Err ==> r == Err::<(), ErrorCode>(ErrorCode::InvalidProfile),
{
    if lighting.brightness > BRIGHTNESS_MAX {
        return Err(ErrorCode::InvalidProfile);
    }
    if lighting.effect == LightingEffect::Static && lighting.color.is_none() {
        return Err(ErrorCode::InvalidProfile);
    }
    Ok(())
}

pub fn validate_macro(steps: &Vec<MacroStep>) -> (r: Result<(), ErrorCode>)
    ensures
        r is Ok == macro_ok(steps_model(steps@)),
        r is Err ==> r == Err::<(), ErrorCode>(ErrorCode::InvalidProfile),
{
    if steps.len() == 0 || steps.len() > MACRO_MAX_STEPS {
        return Err(ErrorCode::InvalidProfile);
    }
    let mut i: usize = 0;
    while i < steps.len()
        invariant
            i <= steps.len(),
            1 <= steps.len() <= MACRO_MAX_STEPS,
            forall|j: int| 0 <= j < i ==> step_ok(#[trigger] steps_model(steps@)[j]),
        decreases steps.len() - i,
    {
        let step = &steps[i];
        assert(steps_model(steps@)[i as int] == step@);
        if step.delay_ms > MACRO_MAX_DELAY_MS {
            return Err(ErrorCode::InvalidProfile);
        }
        match &step.kind {
            MacroKind::Key { modifiers, .. } => {
                validate_modifiers(modifiers)?;
            },
            MacroKind::Mouse { .. } => {},
        }
        i += 1;
    }
    Ok(())
}

pub fn validate_action(action: &Action) -> (r: Result<(), ErrorCode>)
    ensures
        r is Ok == action_ok(action@),
        r is Err ==> r == Err::<(), ErrorCode>(ErrorCode::InvalidProfile),
{
    match action {
        Action::Key { key, modifiers } => {
            assert(action@ == ActionModel::Key { key: *key, modifiers: modifiers@ });
            validate_modifiers(modifiers)
        },
        Action::Macro { steps } => {
            assert(action@ == ActionModel::Macro { steps: steps_model(steps@) });
            validate_macro(steps)
        },
        Action::Mouse { .. } => Ok(()),
        Action::SwitchProfile { .. } => Ok(()),
        Action::NextProfile => Ok(()),
        Action::HoldRepeat { inner, rate_ms } => {
            if *rate_ms < HOLD_REPEAT_RATE_MIN_MS || *rate_ms > HOLD_REPEAT_RATE_MAX_MS {
                return Err(ErrorCode::InvalidProfile);
            }
            assert(action@ == ActionModel::HoldRepeat { inner: Box::new(inner@), rate_ms: *rate_ms });
            match &**inner {
                Action::Key { key, modifiers } => {
                    assert(inner@ == ActionModel::Key { key: *key, modifiers: modifiers@ });
                    validate_modifiers(modifiers)
                },
                _ => Err(ErrorCode::InvalidProfile),
            }
        },
    }
}

impl Profile {
    /// Accepts a profile exactly when it is well formed; every refusal is
    /// `InvalidProfile`.
    pub fn validate(&self) -> (r: Result<(), ErrorCode>)
        ensures
            r is Ok == profile_ok(*self),
            r is Err ==> r == Err::<(), ErrorCode>(ErrorCode::InvalidProfile),
    {
        if self.unknown_key_ids {
            return Err(ErrorCode::InvalidProfile);
        }
        if !valid_id(self.id.as_str()) {
            return Err(ErrorCode::InvalidProfile);
        }
        if !valid_name(self.name.as_str()) {
            return Err(ErrorCode::InvalidProfile);
        }
        validate_device_models(&self.device_models)?;
        validate_lighting(&self.lighting)?;
        let keys = self.bindings.keys();
        let mut i: usize = 0;
        while i < keys.len()
            invariant
                i <= keys.len(),
                forall|k: KeyId| keys@.contains(k) <==> self.bindings@.contains_key(k),
                forall|j: int| 0 <= j < i ==> action_ok(self.bindings@[#[trigger] keys@[j]]),
            decreases keys.len() - i,
        {
            let k = keys[i];
            assert(keys@.contains(k));
            let action = self.bindings.get(k).unwrap();
            validate_action(action)?;
            i += 1;
        }
        proof {
            assert forall|k: KeyId| #[trigger] self.bindings@.contains_key(k) implies action_ok(self.bindings@[k]) by {
                assert(keys@.contains(k));
                let j = choose|j: int| 0 <= j < keys@.len() && keys@[j] == k;
                assert(action_ok(self.bindings@[keys@[j]]));
            }
        }
        Ok(())
    }

    /// The bindings that exist on a model: the V2 drops analog keys, the
    /// Pro drops thumb-pad keys.
    pub fn bindings_for_model(&self, model: DeviceModel) -> (r: Bindings)
        ensures r@ == self.bindings@.restrict(Set::new(|k: KeyId| key_fits_model(k, Some(model)))),
    {
        self.bindings.filter_for_model(Some(model))
    }
}

// ---------------------------------------------------------------------
// Profile ids from names.

/// The slug built so far from a prefix of a name, and whether a separator
/// is owed before the next letter or digit.
pub open spec fn slug_state(s: Seq<char>) -> (Seq<char>, bool)
    decreases s.len(),
{
    if s.len() == 0 {
        (Seq::empty(), false)
    } else {
        let (prev, pending) = slug_state(s.drop_last());
        let c = ascii_lower(s.last());
        if is_ascii_lower(c) || is_ascii_digit(c) {
            ((if pending && prev.len() > 0 { prev.push('-') } else { prev }).push(c), false)
        } else {
            (prev, true)
        }
    }
}

/// Lowercase ASCII letters and digits pass through; every other run of
/// characters between two of them becomes one hyphen; a name with none
/// becomes `profile`.
pub open spec fn slug(name: Seq<char>) -> Seq<char> {
    let s = slug_state(name).0;
    if s.len() == 0 { SLUG_FALLBACK@ } else { s }
}

pub open spec fn trim_end_dashes(s: Seq<char>) -> Seq<char>
    decreases s.len(),
{
    if s.len() > 0 && s.last() == '-' { trim_end_dashes(s.drop_last()) } else { s }
}

/// The id a name gets before any collision suffix: its slug cut to leave
/// room for `-` and two digits, without trailing hyphens.
pub open spec fn base_id(name: Seq<char>) -> Seq<char> {
    let s = slug(name);
    trim_end_dashes(if s.len() <= 61 { s } else { s.take(61) })
}

/// The `n`th copy of a base id: the base, `-` and the number. A number of
/// three or more digits that would take the id past 64 characters cuts the
/// base further first, so the suffix never takes it over the limit.
pub open spec fn suffixed_id(base: Seq<char>, n: nat) -> Seq<char> {
    let d = decimal(n);
    if base.len() + 1 + d.len() <= 64 {
        base + "-"@ + d
    } else {
        base.take(63 - d.len()) + "-"@ + d
    }
}

/// Ten to the power `k`.
pub open spec fn pow10(k: nat) -> nat
    decreases k,
{
    if k == 0 { 1 } else { 10 * pow10((k - 1) as nat) }
}

proof fn lemma_decimal_len(n: nat, k: nat)
    requires k >= 1, n < pow10(k),
    ensures decimal(n).len() <= k,
    decreases k,
{
    if n >= 10 {
        let p = pow10((k - 1) as nat);
        assert(k >= 2) by {
            if k == 1 {
                assert(pow10(0) == 1);
            }
        }
        assert(n / 10 < p) by (nonlinear_arith) requires n < 10 * p, n >= 0;
        lemma_decimal_len(n / 10, (k - 1) as nat);
    }
}

/// A 64-bit number takes at most 20 digits.
proof fn lemma_decimal_u64(n: nat)
    requires n <= 0xffff_ffff_ffff_ffff,
    ensures decimal(n).len() <= 20,
{
    assert(pow10(20) == 100000000000000000000) by {
        reveal_with_fuel(pow10, 21);
    }
    lemma_decimal_len(n, 20);
}

/// Where two ids end in `-` and digits and are the same, so are the digits.
proof fn lemma_same_suffix_digits(p1: Seq<char>, d1: Seq<char>, p2: Seq<char>, d2: Seq<char>)
    requires
        p1 + "-"@ + d1 == p2 + "-"@ + d2,
        forall|i: int| 0 <= i < d1.len() ==> '0' <= #[trigger] d1[i] <= '9',
        forall|i: int| 0 <= i < d2.len() ==> '0' <= #[trigger] d2[i] <= '9',
    ensures d1 == d2,
{
    reveal_strlit("-");
    let s1 = p1 + "-"@ + d1;
    let s2 = p2 + "-"@ + d2;
    let l = s1.len();
    if d1.len() < d2.len() {
        assert(s1[l - d1.len() - 1] == '-');
        assert(s2[l - d1.len() - 1] == d2[d2.len() - d1.len() - 1]);
    } else if d2.len() < d1.len() {
        assert(s2[l - d2.len() - 1] == '-');
        assert(s1[l - d2.len() - 1] == d1[d1.len() - d2.len() - 1]);
    } else {
        assert(d1 =~= s1.subrange(l - d1.len(), l as int));
        assert(d2 =~= s2.subrange(l - d2.len(), l as int));
    }
}

/// A copy's id is longer than its base.
proof fn lemma_suffixed_longer(base: Seq<char>, n: nat)
    requires base.len() <= 61, n <= 0xffff_ffff_ffff_ffff,
    ensures
        suffixed_id(base, n).len() > base.len(),
        suffixed_id(base, n).len() <= 64,
{
    reveal_strlit("-");
    lemma_decimal_u64(n);
}

pub open spec fn seq_contains_str(taken: Seq<String>, s: Seq<char>) -> bool {
    exists|i: int| 0 <= i < taken.len() && taken[i]@ == s
}

/// Slugs are letters, digits and single hyphens, never leading.
proof fn lemma_slug_state_shape(s: Seq<char>)
    ensures
        slug_state(s).0.len() > 0 ==> (is_ascii_lower(slug_state(s).0[0]) || is_ascii_digit(slug_state(s).0[0])),
        slug_state(s).0.len() > 0 ==> (is_ascii_lower(slug_state(s).0.last()) || is_ascii_digit(slug_state(s).0.last())),
        forall|i: int| 0 <= i < slug_state(s).0.len() ==> id_char(#[trigger] slug_state(s).0[i]),
    decreases s.len(),
{
    if s.len() > 0 {
        lemma_slug_state_shape(s.drop_last());
        let (prev, pending) = slug_state(s.drop_last());
        let c = ascii_lower(s.last());
        if is_ascii_lower(c) || is_ascii_digit(c) {
            let mid = if pending && prev.len() > 0 { prev.push('-') } else { prev };
            assert(forall|i: int| 0 <= i < mid.len() ==> id_char(#[trigger] mid[i]));
            assert(mid.len() > 0 ==> mid[0] == prev[0]);
        }
    }
}

proof fn lemma_trim_end_dashes(s: Seq<char>)
    requires s.len() > 0, is_ascii_lower(s[0]) || is_ascii_digit(s[0]),
        forall|i: int| 0 <= i < s.len() ==> id_char(#[trigger] s[i]),
    ensures
        trim_end_dashes(s).len() >= 1,
        trim_end_dashes(s).len() <= s.len(),
        trim_end_dashes(s)[0] == s[0],
        trim_end_dashes(s).last() != '-',
        forall|i: int| 0 <= i < trim_end_dashes(s).len() ==> #[trigger] trim_end_dashes(s)[i] == s[i],
    decreases s.len(),
{
    if s.len() > 0 && s.last() == '-' {
        assert(s.len() > 1);
        lemma_trim_end_dashes(s.drop_last());
    }
}

/// The base id is a valid id of at most 61 characters.
pub proof fn lemma_base_id_valid(name: Seq<char>)
    ensures
        valid_id_spec(base_id(name)),
        base_id(name).len() <= 61,
{
    lemma_slug_state_shape(name);
    let s = slug(name);
    reveal_strlit("profile");
    let t = if s.len() <= 61 { s } else { s.take(61) };
    assert(forall|i: int| 0 <= i < t.len() ==> id_char(#[trigger] t[i]) && t[i] == s[i]);
    lemma_trim_end_dashes(t);
    let b = base_id(name);
    assert forall|i: int| 1 <= i < b.len() implies id_char(#[trigger] b[i]) by {
        assert(b[i] == t[i]);
    }
}

/// Distinct elements that all occur in `t` number at most `t.len()`.
proof fn lemma_distinct_within(c: Seq<Seq<char>>, t: Seq<Seq<char>>)
    requires
        no_duplicates(c),
        forall|i: int| 0 <= i < c.len() ==> t.contains(#[trigger] c[i]),
    ensures c.len() <= t.len(),
    decreases c.len(),
{
    if c.len() > 0 {
        let x = c.last();
        assert(t.contains(c[c.len() - 1]));
        let k = choose|k: int| 0 <= k < t.len() && t[k] == x;
        let t2 = t.remove(k);
        let c2 = c.drop_last();
        assert forall|i: int| 0 <= i < c2.len() implies t2.contains(#[trigger] c2[i]) by {
            assert(t.contains(c[i]));
            let j = choose|j: int| 0 <= j < t.len() && t[j] == c[i];
            assert(c[i] != x);
            assert(j != k);
            if j < k {
                assert(t2[j] == c2[i]);
            } else {
                assert(t2[j - 1] == c2[i]);
            }
        }
        lemma_distinct_within(c2, t2);
    }
}

/// The base and its suffixed copies up to `n` are all different.
proof fn lemma_candidates_distinct(base: Seq<char>, n: nat)
    requires n >= 2, base.len() <= 61, n <= 0x1_0000_0000_0000_0000,
    ensures ({
        let c = candidates(base, n);
        &&& no_duplicates(c)
        &&& c.len() == n - 1
    }),
    decreases n,
{
    let c = candidates(base, n);
    if n > 2 {
        lemma_candidates_distinct(base, (n - 1) as nat);
        let prev = candidates(base, (n - 1) as nat);
        assert(c == prev.push(suffixed_id(base, (n - 1) as nat)));
        assert forall|i: int, j: int| 0 <= i < j < c.len() implies c[i] != c[j] by {
            lemma_candidates_index(base, n, i);
            lemma_candidates_index(base, n, j);
            if j == c.len() - 1 {
                let x = suffixed_id(base, (n - 1) as nat);
                if i == 0 {
                    assert(c[0] == base);
                    lemma_suffixed_longer(base, (n - 1) as nat);
                } else {
                    let m = (i + 1) as nat;
                    assert(c[i] == suffixed_id(base, m));
                    if c[i] == x {
                        lemma_decimal_digits(m);
                        lemma_decimal_digits((n - 1) as nat);
                        lemma_decimal_u64(m);
                        lemma_decimal_u64((n - 1) as nat);
                        let p1 = if base.len() + 1 + decimal(m).len() <= 64 { base } else { base.take(63 - decimal(m).len()) };
                        let p2 = if base.len() + 1 + decimal((n - 1) as nat).len() <= 64 { base } else {
                            base.take(63 - decimal((n - 1) as nat).len())
                        };
                        assert(c[i] == p1 + "-"@ + decimal(m));
                        assert(x == p2 + "-"@ + decimal((n - 1) as nat));
                        lemma_same_suffix_digits(p1, decimal(m), p2, decimal((n - 1) as nat));
                        lemma_decimal_injective(m, (n - 1) as nat);
                    }
                }
            } else {
                assert(c[i] == prev[i]);
                assert(c[j] == prev[j]);
            }
        }
    }
}

/// The base followed by its copies numbered `2..n`.
pub open spec fn candidates(base: Seq<char>, n: nat) -> Seq<Seq<char>>
    decreases n,
{
    if n <= 2 {
        seq![base]
    } else {
        candidates(base, (n - 1) as nat).push(suffixed_id(base, (n - 1) as nat))
    }
}

proof fn lemma_candidates_index(base: Seq<char>, n: nat, i: int)
    requires n >= 2, 0 <= i < n - 1,
    ensures
        candidates(base, n).len() == n - 1,
        candidates(base, n)[i] == if i == 0 { base } else { suffixed_id(base, (i + 1) as nat) },
    decreases n,
{
    if n > 2 {
        lemma_candidates_index(base, (n - 1) as nat, if i < n - 2 { i } else { 0 });
    }
}

fn strings_contain(taken: &[String], s: &Vec<char>) -> (r: bool)
    ensures r == seq_contains_str(taken@, s@),
{
    let probe = from_chars(s);
    let mut i: usize = 0;
    while i < taken.len()
        invariant
            i <= taken.len(),
            probe@ == s@,
            forall|j: int| 0 <= j < i ==> taken@[j]@ != s@,
        decreases taken.len() - i,
    {
        if taken[i] == probe {
            return true;
        }
        i += 1;
    }
    false
}

/// Turns a display name into a profile id: the base id when no profile
/// in `taken` uses it, else the base with the smallest suffix `-2`,
/// `-3`, … that is free. The result is always free and always a valid id:
/// the base is cut to leave room for `-` and two digits, and a longer
/// suffix cuts it further, so the suffix never takes it past the limit.
pub fn profile_id_for_name(name: &str, taken: &[String]) -> (id: String)
    requires taken@.len() < usize::MAX,
    ensures
        !seq_contains_str(taken@, id@),
        id@.len() >= 1,
        is_ascii_lower(id@[0]) || is_ascii_digit(id@[0]),
        forall|i: int| 0 <= i < id@.len() ==> id_char(#[trigger] id@[i]),
        valid_id_spec(id@),
        !seq_contains_str(taken@, base_id(name@)) ==> id@ == base_id(name@),
        seq_contains_str(taken@, base_id(name@)) ==> exists|n: nat| n >= 2
            && id@ == suffixed_id(base_id(name@), n)
            && forall|m: nat| 2 <= m < n ==> seq_contains_str(taken@, #[trigger] suffixed_id(base_id(name@), m)),
{
    let chars = chars_of(name);
    let mut slug_v: Vec<char> = Vec::new();
    let mut pending = false;
    let mut i: usize = 0;
    while i < chars.len()
        invariant
            i <= chars.len(),
            chars@ == name@,
            slug_state(chars@.take(i as int)) == (slug_v@, pending),
        decreases chars.len() - i,
    {
        let lowered = ascii_lower_exec(chars[i]);
        if ('a' <= lowered && lowered <= 'z') || ('0' <= lowered && lowered <= '9') {
            if pending && slug_v.len() > 0 {
                slug_v.push('-');
            }
            pending = false;
            slug_v.push(lowered);
        } else {
            pending = true;
        }
        assert(chars@.take(i + 1).drop_last() =~= chars@.take(i as int));
        i += 1;
    }
    assert(chars@.take(chars.len() as int) =~= chars@);
    if slug_v.len() == 0 {
        slug_v.push('p');
        slug_v.push('r');
        slug_v.push('o');
        slug_v.push('f');
        slug_v.push('i');
        slug_v.push('l');
        slug_v.push('e');
        proof { reveal_strlit("profile"); }
        assert(slug_v@ =~= "profile"@);
    }
    assert(slug_v@ == slug(name@));
    let base_max: usize = PROFILE_ID_MAX_LEN - 1 - SLUG_MAX_SUFFIX_DIGITS;
    if slug_v.len() > base_max {
        slug_v.truncate(base_max);
    }
    assert(slug_v@ == (if slug(name@).len() <= 61 { slug(name@) } else { slug(name@).take(61) }));
    while slug_v.len() > 0 && slug_v[slug_v.len() - 1] == '-'
        invariant
            trim_end_dashes(slug_v@) == base_id(name@),
        decreases slug_v.len(),
    {
        slug_v.pop();
    }
    let ghost base = base_id(name@);
    assert(slug_v@ == base);
    proof { lemma_base_id_valid(name@); }
    if !strings_contain(taken, &slug_v) {
        return from_chars(&slug_v);
    }
    let mut counter: u64 = SLUG_FIRST_SUFFIX;
    loop
        invariant
            2 <= counter,
            slug_v@ == base,
            base == base_id(name@),
            valid_id_spec(base),
            base.len() <= 61,
            taken@.len() < usize::MAX,
            seq_contains_str(taken@, base),
            forall|m: nat| 2 <= m < counter ==> seq_contains_str(taken@, #[trigger] suffixed_id(base, m)),
            counter <= taken@.len() + 1,
        decreases taken@.len() + 2 - counter,
    {
        let mut digits: Vec<char> = Vec::new();
        push_decimal(&mut digits, counter);
        proof {
            lemma_decimal_u64(counter as nat);
            lemma_decimal_digits(counter as nat);
        }
        assert(digits@ =~= decimal(counter as nat));
        let keep: usize = if slug_v.len() + 1 + digits.len() <= PROFILE_ID_MAX_LEN {
            slug_v.len()
        } else {
            PROFILE_ID_MAX_LEN - 1 - digits.len()
        };
        let mut cand: Vec<char> = Vec::new();
        let mut k: usize = 0;
        while k < keep
            invariant k <= keep, keep <= slug_v.len(), cand@ == slug_v@.take(k as int),
            decreases keep - k,
        {
            cand.push(slug_v[k]);
            k += 1;
        }
        let ghost head = cand@;
        assert(head == (if base.len() + 1 + decimal(counter as nat).len() <= 64 { base } else {
            base.take(63 - decimal(counter as nat).len())
        }));
        cand.push('-');
        let mut t: usize = 0;
        while t < digits.len()
            invariant t <= digits.len(), cand@ == head.push('-') + digits@.take(t as int),
            decreases digits.len() - t,
        {
            cand.push(digits[t]);
            t += 1;
            assert(cand@ =~= head.push('-') + digits@.take(t as int));
        }
        proof { reveal_strlit("-"); }
        assert(cand@ =~= suffixed_id(base, counter as nat));
        if !strings_contain(taken, &cand) {
            let id = from_chars(&cand);
            proof {
                let d = decimal(counter as nat);
                lemma_suffixed_longer(base, counter as nat);
                assert forall|i: int| 0 <= i < id@.len() implies id_char(#[trigger] id@[i]) by {
                    if i < head.len() {
                        assert(id@[i] == base[i]);
                    } else if i > head.len() {
                        assert(id@[i] == d[i - head.len() - 1]);
                    }
                }
                assert(head.len() >= 1);
                assert(id@[0] == base[0]);
                assert(id@ == suffixed_id(base_id(name@), counter as nat));
                assert(seq_contains_str(taken@, base_id(name@)));
            }
            return id;
        }
        proof {
            let n = (counter + 1) as nat;
            lemma_candidates_distinct(base, n);
            let c = candidates(base, n);
            let tv = taken@.map_values(|s: String| s@);
            assert forall|i: int| 0 <= i < c.len() implies tv.contains(#[trigger] c[i]) by {
                lemma_candidates_index(base, n, i);
                if i == 0 {
                    assert(seq_contains_str(taken@, base));
                    let j = choose|j: int| 0 <= j < taken@.len() && taken@[j]@ == base;
                    assert(tv[j] == base);
                } else {
                    let m = (i + 1) as nat;
                    assert(seq_contains_str(taken@, suffixed_id(base, m)));
                    let j = choose|j: int| 0 <= j < taken@.len() && taken@[j]@ == suffixed_id(base, m);
                    assert(tv[j] == c[i]);
                }
            }
            lemma_distinct_within(c, tv);
        }
        counter += 1;
    }
}

/// A combo may hold up to four modifiers, each at most once: a key
/// binding's modifier list is accepted exactly when it has at most
/// `MODIFIERS_MAX` (four) entries and no two are the same. So Ctrl+Shift+S
/// is a valid binding, and so is a hold-repeat of it.
pub proof fn lemma_combo_modifier_rule(key: KeyToken, mods: Seq<Modifier>, rate_ms: u32)
    ensures
        MODIFIERS_MAX == 4,
        modifiers_ok(mods) <==> (mods.len() <= 4 && forall|i: int, j: int| 0 <= i < j < mods.len() ==> mods[i] != mods[j]),
        action_ok(ActionModel::Key { key, modifiers: mods }) == modifiers_ok(mods),
        HOLD_REPEAT_RATE_MIN_MS <= rate_ms <= HOLD_REPEAT_RATE_MAX_MS ==> action_ok(
            ActionModel::HoldRepeat { inner: Box::new(ActionModel::Key { key, modifiers: mods }), rate_ms },
        ) == modifiers_ok(mods),
{
}

} // verus!
