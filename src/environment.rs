//! Environments, global variables and the `{{name}}` substitution of
//! variables into request text.

use vstd::prelude::*;
use vstd::string::*;

use crate::base::{clone_opt_string, new_id, now, uuid_text, Id, Identifiable, Temporal, Timestamp};

verus! {

/// How a variable is treated in the interface.
#[derive(Clone, Copy, Debug, PartialEq, Eq, Structural)]
pub enum VariableType {
    Normal,
    /// Masked when displayed.
    Secret,
    /// Read-only in some contexts.
    System,
    Env,
}

impl Default for VariableType {
    fn default() -> (r: Self)
        ensures
            r == VariableType::Normal,
    {
        VariableType::Normal
    }
}

/// A named value available for substitution.
#[derive(Debug, PartialEq, Eq)]
pub struct Variable {
    pub key: String,
    pub value: String,
    /// The value a secret started with.
    pub initial_value: Option<String>,
    pub enabled: bool,
    pub variable_type: VariableType,
    pub description: Option<String>,
}

impl Clone for Variable {
    fn clone(&self) -> (r: Self)
        ensures
            r == *self,
    {
        Variable {
            key: self.key.clone(),
            value: self.value.clone(),
            initial_value: clone_opt_string(&self.initial_value),
            enabled: self.enabled,
            variable_type: self.variable_type,
            description: clone_opt_string(&self.description),
        }
    }
}

/// Variables are enabled unless said otherwise.
fn default_enabled() -> (r: bool)
    ensures
        r,
{
    true
}

/// An enabled, normal variable without initial value or description.
pub open spec fn plain_variable(key: String, value: String) -> Variable {
    Variable {
        key,
        value,
        initial_value: None,
        enabled: true,
        variable_type: VariableType::Normal,
        description: None,
    }
}

/// The eight bullets that stand for a secret's value.
pub open spec fn mask() -> Seq<char> {
    seq![
        '\u{2022}', '\u{2022}', '\u{2022}', '\u{2022}',
        '\u{2022}', '\u{2022}', '\u{2022}', '\u{2022}',
    ]
}

impl Variable {
    pub fn new(key: String, value: String) -> (r: Self)
        ensures
            r == plain_variable(key, value),
    {
        Variable {
            key,
            value,
            initial_value: None,
            enabled: default_enabled(),
            variable_type: VariableType::Normal,
            description: None,
        }
    }

    /// A secret variable; its value is also kept as its initial value.
    pub fn secret(key: String, value: String) -> (r: Self)
        ensures
            r == (Variable {
                key,
                value,
                initial_value: Some(value),
                enabled: true,
                variable_type: VariableType::Secret,
                description: None,
            }),
    {
        let initial = value.clone();
        Variable {
            key,
            value,
            initial_value: Some(initial),
            enabled: default_enabled(),
            variable_type: VariableType::Secret,
            description: None,
        }
    }

    pub fn disabled(key: String, value: String) -> (r: Self)
        ensures
            r == (Variable { enabled: false, ..plain_variable(key, value) }),
    {
        Variable {
            key,
            value,
            initial_value: None,
            enabled: false,
            variable_type: VariableType::Normal,
            description: None,
        }
    }

    pub fn with_type(self, variable_type: VariableType) -> (r: Self)
        ensures
            r == (Variable { variable_type, ..self }),
    {
        let mut v = self;
        v.variable_type = variable_type;
        v
    }

    pub fn with_description(self, description: String) -> (r: Self)
        ensures
            r == (Variable { description: Some(description), ..self }),
    {
        let mut v = self;
        v.description = Some(description);
        v
    }

    pub fn is_secret(&self) -> (r: bool)
        ensures
            r == (self.variable_type == VariableType::Secret),
    {
        self.variable_type == VariableType::Secret
    }

    /// The value as displayed: a secret with a non-empty value is masked.
    pub fn display_value(&self) -> (r: String)
        ensures
            r@ == if self.variable_type == VariableType::Secret && self.value@.len() > 0 {
                mask()
            } else {
                self.value@
            },
    {
        if self.is_secret() && !self.value.as_str().is_empty() {
            proof {
                reveal_strlit("\u{2022}\u{2022}\u{2022}\u{2022}\u{2022}\u{2022}\u{2022}\u{2022}");
            }
            let r = String::from_str(
                "\u{2022}\u{2022}\u{2022}\u{2022}\u{2022}\u{2022}\u{2022}\u{2022}",
            );
            assert(r@ =~= mask());
            r
        } else {
            self.value.clone()
        }
    }
}

/// The value of the first enabled variable named `key`.
pub open spec fn first_enabled(vars: Seq<Variable>, key: Seq<char>) -> Option<Seq<char>>
    decreases vars.len(),
{
    if vars.len() == 0 {
        None
    } else if vars[0].enabled && vars[0].key@ == key {
        Some(vars[0].value@)
    } else {
        first_enabled(vars.drop_first(), key)
    }
}

/// The position of the first variable named `key`, enabled or not; -1 if none.
pub open spec fn key_index(vars: Seq<Variable>, key: Seq<char>) -> int
    decreases vars.len(),
{
    if vars.len() == 0 {
        -1
    } else if vars[0].key@ == key {
        0
    } else {
        let i = key_index(vars.drop_first(), key);
        if i < 0 {
            -1
        } else {
            i + 1
        }
    }
}

/// The variables after setting `key` to `value`: the first variable of that
/// name takes the value, or a new plain variable is appended.
pub open spec fn set_model(vars: Seq<Variable>, key: String, value: String) -> Seq<Variable> {
    let i = key_index(vars, key@);
    if i >= 0 {
        vars.update(i, Variable { value, ..vars[i] })
    } else {
        vars.push(plain_variable(key, value))
    }
}

/// The variables not named `key`, in order.
pub open spec fn without_key(vars: Seq<Variable>, key: Seq<char>) -> Seq<Variable>
    decreases vars.len(),
{
    if vars.len() == 0 {
        vars
    } else if vars.last().key@ == key {
        without_key(vars.drop_last(), key)
    } else {
        without_key(vars.drop_last(), key).push(vars.last())
    }
}

/// The (key, value) pairs of the enabled variables, in order.
pub open spec fn enabled_pairs(vars: Seq<Variable>) -> Seq<(Seq<char>, Seq<char>)>
    decreases vars.len(),
{
    if vars.len() == 0 {
        Seq::empty()
    } else if vars.last().enabled {
        enabled_pairs(vars.drop_last()).push((vars.last().key@, vars.last().value@))
    } else {
        enabled_pairs(vars.drop_last())
    }
}

/// A list of (key, value) pairs, as text.
pub open spec fn pairs_view(pairs: Seq<(String, String)>) -> Seq<(Seq<char>, Seq<char>)> {
    pairs.map_values(|p: (String, String)| (p.0@, p.1@))
}

/// What a pair list maps `key` to: the value of its last pair with that key,
/// so that later pairs override earlier ones.
pub open spec fn pair_lookup(pairs: Seq<(Seq<char>, Seq<char>)>, key: Seq<char>) -> Option<
    Seq<char>,
>
    decreases pairs.len(),
{
    if pairs.len() == 0 {
        None
    } else if pairs.last().0 == key {
        Some(pairs.last().1)
    } else {
        pair_lookup(pairs.drop_last(), key)
    }
}

fn find_enabled(vars: &Vec<Variable>, key: &str) -> (r: Option<String>)
    ensures
        r matches Some(v) ==> first_enabled(vars@, key@) == Some(v@),
        r is None ==> first_enabled(vars@, key@) is None,
{
    let k = String::from_str(key);
    let mut i: usize = 0;
    assert(vars@.skip(0) =~= vars@);
    while i < vars.len()
        invariant
            i <= vars@.len(),
            k@ == key@,
            first_enabled(vars@, key@) == first_enabled(vars@.skip(i as int), key@),
        decreases vars@.len() - i,
    {
        let ghost rest = vars@.skip(i as int);
        assert(rest[0] == vars@[i as int]);
        assert(rest.drop_first() =~= vars@.skip(i + 1));
        if vars[i].enabled && vars[i].key == k {
            return Some(vars[i].value.clone());
        }
        i = i + 1;
    }
    None
}

fn key_position(vars: &Vec<Variable>, key: &String) -> (r: Option<usize>)
    ensures
        r matches Some(i) ==> key_index(vars@, key@) == i && i < vars@.len(),
        r is None ==> key_index(vars@, key@) == -1,
{
    let mut i: usize = 0;
    while i < vars.len()
        invariant
            i <= vars@.len(),
            forall|j: int| 0 <= j < i ==> vars@[j].key@ != key@,
        decreases vars@.len() - i,
    {
        if vars[i].key == *key {
            proof {
                lemma_key_index_found(vars@, key@, i as int);
            }
            return Some(i);
        }
        i = i + 1;
    }
    proof {
        lemma_key_index_found(vars@, key@, vars@.len() as int);
    }
    None
}

proof fn lemma_key_index_found(vars: Seq<Variable>, key: Seq<char>, i: int)
    requires
        0 <= i <= vars.len(),
        forall|j: int| 0 <= j < i ==> vars[j].key@ != key,
        i < vars.len() ==> vars[i].key@ == key,
    ensures
        key_index(vars, key) == if i < vars.len() {
            i
        } else {
            -1
        },
    decreases vars.len(),
{
    if vars.len() > 0 && i > 0 {
        let rest = vars.drop_first();
        assert forall|j: int| 0 <= j < i - 1 implies rest[j].key@ != key by {
            assert(rest[j] == vars[j + 1]);
        }
        if i < vars.len() {
            assert(rest[i - 1] == vars[i]);
        }
        lemma_key_index_found(rest, key, i - 1);
        assert(vars[0].key@ != key);
    }
}

/// Sets `key` to `value` in `vars`, appending a variable if none has that name.
fn set_variable(vars: &mut Vec<Variable>, key: String, value: String)
    ensures
        final(vars)@ == set_model(old(vars)@, key, value),
{
    match key_position(vars, &key) {
        Some(i) => {
            vars[i].value = value;
            assert(vars@ =~= set_model(old(vars)@, key, value));
        },
        None => {
            vars.push(Variable::new(key, value));
        },
    }
}

/// Removes every variable named `key`; true when one was there.
fn unset_variable(vars: &mut Vec<Variable>, key: &str) -> (r: bool)
    ensures
        final(vars)@ == without_key(old(vars)@, key@),
        r == (final(vars)@.len() < old(vars)@.len()),
{
    let k = String::from_str(key);
    let ghost orig = vars@;
    let len_before = vars.len();
    let mut i: usize = 0;
    let ghost mut j: int = 0;
    while i < vars.len()
        invariant
            0 <= j <= orig.len(),
            i <= vars@.len(),
            vars@.take(i as int) == without_key(orig.take(j), key@),
            vars@.skip(i as int) == orig.skip(j),
            len_before == orig.len(),
            k@ == key@,
        decreases vars@.len() - i,
    {
        let ghost cur = vars@;
        proof {
            assert(orig.skip(j).len() == cur.skip(i as int).len());
            assert(cur[i as int] == orig[j]) by {
                assert(cur.skip(i as int)[0] == orig.skip(j)[0]);
            }
            assert(orig.take(j + 1).drop_last() =~= orig.take(j));
        }
        if vars[i].key == k {
            vars.remove(i);
            proof {
                assert(vars@.take(i as int) =~= cur.take(i as int));
                assert(vars@.skip(i as int) =~= cur.skip(i as int).skip(1));
                assert(orig.skip(j + 1) =~= orig.skip(j).skip(1));
            }
        } else {
            i = i + 1;
            proof {
                assert(vars@.take(i as int) =~= cur.take(i - 1).push(cur[i - 1]));
                assert(vars@.skip(i as int) =~= cur.skip(i - 1).skip(1));
                assert(orig.skip(j + 1) =~= orig.skip(j).skip(1));
            }
        }
        proof {
            j = j + 1;
        }
    }
    proof {
        assert(orig.skip(j).len() == 0);
        assert(orig.take(j) =~= orig);
        assert(vars@.take(i as int) =~= vars@);
    }
    vars.len() < len_before
}

/// The enabled variables as (key, value) pairs, in order.
fn enabled_map(vars: &Vec<Variable>) -> (r: Vec<(String, String)>)
    ensures
        pairs_view(r@) == enabled_pairs(vars@),
{
    let mut out: Vec<(String, String)> = Vec::new();
    let mut i: usize = 0;
    while i < vars.len()
        invariant
            i <= vars@.len(),
            pairs_view(out@) == enabled_pairs(vars@.take(i as int)),
        decreases vars@.len() - i,
    {
        proof {
            assert(vars@.take(i + 1).drop_last() =~= vars@.take(i as int));
        }
        if vars[i].enabled {
            out.push((vars[i].key.clone(), vars[i].value.clone()));
        }
        i = i + 1;
        assert(pairs_view(out@) =~= enabled_pairs(vars@.take(i as int)));
    }
    assert(vars@.take(i as int) =~= vars@);
    out
}

/// No key occurs twice among the pairs.
pub open spec fn distinct_keys(pairs: Seq<(Seq<char>, Seq<char>)>) -> bool {
    forall|i: int, j: int| 0 <= i < j < pairs.len() ==> pairs[i].0 != pairs[j].0
}

proof fn lemma_lookup_found(s: Seq<(Seq<char>, Seq<char>)>, k: Seq<char>, m: int)
    requires
        distinct_keys(s),
        0 <= m < s.len(),
        s[m].0 == k,
    ensures
        pair_lookup(s, k) == Some(s[m].1),
    decreases s.len(),
{
    if m < s.len() - 1 {
        let t = s.drop_last();
        assert(s[m] == t[m]);
        assert(s.last().0 != k) by {
            assert(s[m].0 != s[s.len() - 1].0);
        }
        assert forall|i: int, j: int| 0 <= i < j < t.len() implies t[i].0 != t[j].0 by {
            assert(t[i] == s[i] && t[j] == s[j]);
        }
        lemma_lookup_found(t, k, m);
    }
}

proof fn lemma_lookup_absent(s: Seq<(Seq<char>, Seq<char>)>, k: Seq<char>)
    requires
        forall|m: int| 0 <= m < s.len() ==> s[m].0 != k,
    ensures
        pair_lookup(s, k) is None,
    decreases s.len(),
{
    if s.len() > 0 {
        let t = s.drop_last();
        assert forall|m: int| 0 <= m < t.len() implies t[m].0 != k by {
            assert(t[m] == s[m]);
        }
        assert(s[s.len() - 1] == s.last());
        lemma_lookup_absent(t, k);
    }
}

/// Each key of `pairs` once, in the order keys first appear, with the value
/// of its last pair: the map that collecting the pairs gives.
pub(crate) fn last_value_per_key(pairs: &Vec<(String, String)>) -> (r: Vec<(String, String)>)
    ensures
        distinct_keys(pairs_view(r@)),
        forall|k: Seq<char>| pair_lookup(pairs_view(r@), k) == pair_lookup(pairs_view(pairs@), k),
{
    let ghost pv = pairs_view(pairs@);
    let mut out: Vec<(String, String)> = Vec::new();
    let mut i: usize = 0;
    while i < pairs.len()
        invariant
            i <= pairs@.len(),
            pv == pairs_view(pairs@),
            distinct_keys(pairs_view(out@)),
            forall|k: Seq<char>|
                pair_lookup(pairs_view(out@), k) == pair_lookup(pv.take(i as int), k),
        decreases pairs@.len() - i,
    {
        let ghost before = pairs_view(out@);
        let key = pairs[i].0.clone();
        let value = pairs[i].1.clone();
        proof {
            assert(pv.take(i + 1).drop_last() =~= pv.take(i as int));
            assert(pv.take(i + 1).last() == (key@, value@));
        }
        let mut j: usize = 0;
        while j < out.len() && !(out[j].0 == key)
            invariant
                j <= out@.len(),
                before == pairs_view(out@),
                forall|m: int| 0 <= m < j ==> before[m].0 != key@,
            decreases out@.len() - j,
        {
            j = j + 1;
        }
        if j < out.len() {
            out[j].1 = value;
            proof {
                let after = pairs_view(out@);
                assert(after =~= before.update(j as int, (key@, value@)));
                assert(distinct_keys(after)) by {
                    assert forall|a: int, b: int| 0 <= a < b < after.len() implies after[a].0
                        != after[b].0 by {
                        assert(after[a].0 == before[a].0 && after[b].0 == before[b].0);
                    }
                }
                assert forall|k: Seq<char>| pair_lookup(after, k) == pair_lookup(
                    pv.take(i + 1),
                    k,
                ) by {
                    if k == key@ {
                        lemma_lookup_found(after, k, j as int);
                    } else if exists|m: int| 0 <= m < before.len() && before[m].0 == k {
                        let m = choose|m: int| 0 <= m < before.len() && before[m].0 == k;
                        lemma_lookup_found(before, k, m);
                        lemma_lookup_found(after, k, m);
                    } else {
                        lemma_lookup_absent(before, k);
                        lemma_lookup_absent(after, k);
                    }
                }
            }
        } else {
            out.push((key, value));
            proof {
                let after = pairs_view(out@);
                assert(after =~= before.push((key@, value@)));
                assert(after.drop_last() =~= before);
                assert(distinct_keys(after)) by {
                    assert forall|a: int, b: int| 0 <= a < b < after.len() implies after[a].0
                        != after[b].0 by {
                        if b < before.len() {
                            assert(after[a] == before[a] && after[b] == before[b]);
                        } else {
                            assert(after[a] == before[a]);
                        }
                    }
                }
                assert(after.last() == (key@, value@));
                assert forall|k: Seq<char>| pair_lookup(after, k) == pair_lookup(
                    pv.take(i + 1),
                    k,
                ) by {
                    assert(pair_lookup(before, k) == pair_lookup(pv.take(i as int), k));
                }
            }
        }
        i = i + 1;
    }
    assert(pv.take(i as int) =~= pv);
    out
}

fn copy_variables(vars: &Vec<Variable>) -> (r: Vec<Variable>)
    ensures
        r@ == vars@,
{
    let mut out: Vec<Variable> = Vec::new();
    let mut i: usize = 0;
    while i < vars.len()
        invariant
            i <= vars@.len(),
            out@ == vars@.take(i as int),
        decreases vars@.len() - i,
    {
        out.push(vars[i].clone());
        i = i + 1;
        assert(out@ =~= vars@.take(i as int));
    }
    assert(vars@.take(i as int) =~= vars@);
    out
}

/// A named set of variables, such as "Production" or "Dev".
#[derive(Debug, PartialEq)]
pub struct Environment {
    pub id: Id,
    pub name: String,
    pub values: Vec<Variable>,
    /// Whether this is the environment in use.
    pub is_active: bool,
    pub created_at: Timestamp,
    pub updated_at: Timestamp,
}

impl Environment {
    pub fn new(name: String) -> (r: Self)
        ensures
            r.name == name,
            r.values@.len() == 0,
            !r.is_active,
            r.created_at == r.updated_at,
    {
        let t = now();
        Environment {
            id: new_id(),
            name,
            values: Vec::new(),
            is_active: false,
            created_at: t,
            updated_at: t,
        }
    }

    pub fn with_values(self, values: Vec<Variable>) -> (r: Self)
        ensures
            r == (Environment { values, ..self }),
    {
        let mut e = self;
        e.values = values;
        e
    }

    pub fn with_active(self, is_active: bool) -> (r: Self)
        ensures
            r == (Environment { is_active, ..self }),
    {
        let mut e = self;
        e.is_active = is_active;
        e
    }

    /// Appends a plain variable.
    pub fn add_variable(&mut self, key: String, value: String)
        ensures
            final(self).values@ == old(self).values@.push(plain_variable(key, value)),
            final(self).id == old(self).id,
            final(self).name == old(self).name,
            final(self).is_active == old(self).is_active,
    {
        self.values.push(Variable::new(key, value));
        self.updated_at = now();
    }

    /// The value of the first enabled variable named `key`.
    pub fn get(&self, key: &str) -> (r: Option<String>)
        ensures
            r matches Some(v) ==> first_enabled(self.values@, key@) == Some(v@),
            r is None ==> first_enabled(self.values@, key@) is None,
    {
        find_enabled(&self.values, key)
    }

    /// Gives the first variable named `key` the value, or appends a new one.
    pub fn set(&mut self, key: String, value: String)
        ensures
            final(self).values@ == set_model(old(self).values@, key, value),
            final(self).id == old(self).id,
            final(self).name == old(self).name,
            final(self).is_active == old(self).is_active,
    {
        set_variable(&mut self.values, key, value);
        self.updated_at = now();
    }

    /// Removes every variable named `key`; true when there was one.
    pub fn unset(&mut self, key: &str) -> (r: bool)
        ensures
            final(self).values@ == without_key(old(self).values@, key@),
            r == (final(self).values@.len() < old(self).values@.len()),
            final(self).id == old(self).id,
            final(self).name == old(self).name,
            final(self).is_active == old(self).is_active,
            !r ==> final(self).updated_at == old(self).updated_at,
    {
        let removed = unset_variable(&mut self.values, key);
        if removed {
            self.updated_at = now();
        }
        removed
    }

    /// The enabled variables as a map: each key once, with the value of the
    /// last enabled variable of that name.
    pub fn to_map(&self) -> (r: Vec<(String, String)>)
        ensures
            distinct_keys(pairs_view(r@)),
            forall|k: Seq<char>|
                pair_lookup(pairs_view(r@), k) == pair_lookup(enabled_pairs(self.values@), k),
    {
        last_value_per_key(&enabled_map(&self.values))
    }

    /// A copy under a new id, named "<name> (Copy)" and inactive.
    pub fn duplicate(&self) -> (r: Self)
        ensures
            r.name@ == self.name@ + " (Copy)"@,
            r.values@ == self.values@,
            !r.is_active,
    {
        Environment {
            id: new_id(),
            name: String::from_str(self.name.as_str()).concat(" (Copy)"),
            values: copy_variables(&self.values),
            is_active: false,
            created_at: now(),
            updated_at: now(),
        }
    }
}

impl Temporal for Environment {
    fn created_at(&self) -> Timestamp {
        self.created_at
    }

    fn updated_at(&self) -> Timestamp {
        self.updated_at
    }
}

impl Identifiable for Environment {
    fn id(&self) -> Id {
        self.id
    }
}

/// Variables shared by every environment.
#[derive(Debug, PartialEq)]
pub struct Globals {
    pub values: Vec<Variable>,
    pub updated_at: Timestamp,
}

impl Default for Globals {
    fn default() -> (r: Self)
        ensures
            r.values@.len() == 0,
    {
        Self::new()
    }
}

impl Globals {
    pub fn new() -> (r: Self)
        ensures
            r.values@.len() == 0,
    {
        Globals { values: Vec::new(), updated_at: now() }
    }

    pub fn with_values(self, values: Vec<Variable>) -> (r: Self)
        ensures
            r.values == values,
    {
        Globals { values, updated_at: now() }
    }

    /// The value of the first enabled global named `key`.
    pub fn get(&self, key: &str) -> (r: Option<String>)
        ensures
            r matches Some(v) ==> first_enabled(self.values@, key@) == Some(v@),
            r is None ==> first_enabled(self.values@, key@) is None,
    {
        find_enabled(&self.values, key)
    }

    /// Gives the first global named `key` the value, or appends a new one.
    pub fn set(&mut self, key: String, value: String)
        ensures
            final(self).values@ == set_model(old(self).values@, key, value),
    {
        set_variable(&mut self.values, key, value);
        self.updated_at = now();
    }

    /// Removes every global named `key`; true when there was one.
    pub fn unset(&mut self, key: &str) -> (r: bool)
        ensures
            final(self).values@ == without_key(old(self).values@, key@),
            r == (final(self).values@.len() < old(self).values@.len()),
            final(self).updated_at == old(self).updated_at,
    {
        unset_variable(&mut self.values, key)
    }

    /// The enabled globals as a map: each key once, with the value of the
    /// last enabled global of that name.
    pub fn to_map(&self) -> (r: Vec<(String, String)>)
        ensures
            distinct_keys(pairs_view(r@)),
            forall|k: Seq<char>|
                pair_lookup(pairs_view(r@), k) == pair_lookup(enabled_pairs(self.values@), k),
    {
        last_value_per_key(&enabled_map(&self.values))
    }
}

/// The texts of a list of strings.
pub open spec fn strings_view(v: Seq<String>) -> Seq<Seq<char>> {
    v.map_values(|t: String| t@)
}

/// The names inside the `{{name}}` placeholders of a text, in order. A name
/// is one or more word characters.
pub uninterp spec fn placeholder_names(s: Seq<char>) -> Seq<Seq<char>>;

/// The pieces of a text before, between and after its placeholders, in order.
pub uninterp spec fn literal_pieces(s: Seq<char>) -> Seq<Seq<char>>;

/// Relies on `regex::Regex::captures_iter` with the pattern `\{\{(\w+)\}\}`:
/// the first group of each successive non-overlapping match.
#[verifier::external_body]
fn find_placeholder_names(s: &str) -> (r: Vec<String>)
    ensures
        strings_view(r@) == placeholder_names(s@),
{
    let re = regex::Regex::new(r"\{\{(\w+)\}\}").unwrap();
    re.captures_iter(s).map(|c| c[1].to_string()).collect()
}

/// Relies on `regex::Regex::split` with the pattern `\{\{(\w+)\}\}`: the
/// texts between successive matches, with a leading and a trailing piece, so
/// one more piece than there are matches.
#[verifier::external_body]
fn split_at_placeholders(s: &str) -> (r: Vec<String>)
    ensures
        strings_view(r@) == literal_pieces(s@),
        r@.len() == placeholder_names(s@).len() + 1,
{
    let re = regex::Regex::new(r"\{\{(\w+)\}\}").unwrap();
    re.split(s).map(|piece| piece.to_string()).collect()
}

/// Relies on `chrono::Utc::now` and `DateTime::timestamp`: the system clock in
/// whole seconds since the epoch.
#[verifier::external_body]
fn unix_seconds() -> (r: i64) {
    chrono::Utc::now().timestamp()
}

/// Relies on `chrono::Utc::now` and `DateTime::to_rfc3339`: the system clock
/// as RFC 3339 text.
#[verifier::external_body]
fn now_rfc3339() -> (r: String) {
    chrono::Utc::now().to_rfc3339()
}

/// Relies on `rand::random`: a value drawn from the thread-local generator.
pub assume_specification<T>[ rand::random::<T> ]() -> (r: T)
    where
        rand::distributions::Standard: rand::distributions::Distribution<T>,
;

/// What a placeholder named `name` becomes: its value among the environment
/// variables, else among the globals, else among the system variables; a
/// name found nowhere leaves the placeholder as it was.
pub open spec fn replacement(
    environment: Seq<(Seq<char>, Seq<char>)>,
    globals: Seq<(Seq<char>, Seq<char>)>,
    system: Seq<(Seq<char>, Seq<char>)>,
    name: Seq<char>,
) -> Seq<char> {
    match pair_lookup(environment, name) {
        Some(v) => v,
        None => match pair_lookup(globals, name) {
            Some(v) => v,
            None => match pair_lookup(system, name) {
                Some(v) => v,
                None => "{{"@ + name + "}}"@,
            },
        },
    }
}

/// The pieces of a text joined again, with each placeholder replaced.
pub open spec fn interleave(
    pieces: Seq<Seq<char>>,
    names: Seq<Seq<char>>,
    environment: Seq<(Seq<char>, Seq<char>)>,
    globals: Seq<(Seq<char>, Seq<char>)>,
    system: Seq<(Seq<char>, Seq<char>)>,
) -> Seq<char>
    decreases names.len(),
{
    if pieces.len() == 0 {
        Seq::empty()
    } else if names.len() == 0 {
        pieces[0]
    } else {
        interleave(pieces.drop_last(), names.drop_last(), environment, globals, system)
            + replacement(environment, globals, system, names.last()) + pieces.last()
    }
}

/// The value the last pair with key `key` gives, if any.
fn lookup_pair(pairs: &Vec<(String, String)>, key: &String) -> (r: Option<String>)
    ensures
        r matches Some(v) ==> pair_lookup(pairs_view(pairs@), key@) == Some(v@),
        r is None ==> pair_lookup(pairs_view(pairs@), key@) is None,
{
    let ghost pv = pairs_view(pairs@);
    let mut i: usize = pairs.len();
    assert(pv.take(i as int) =~= pv);
    while i > 0
        invariant
            i <= pairs@.len(),
            pv == pairs_view(pairs@),
            pair_lookup(pv, key@) == pair_lookup(pv.take(i as int), key@),
        decreases i,
    {
        assert(pv.take(i as int).drop_last() =~= pv.take(i - 1));
        assert(pv.take(i as int).last() == pv[i - 1]);
        if pairs[i - 1].0 == *key {
            return Some(pairs[i - 1].1.clone());
        }
        i = i - 1;
    }
    None
}

/// Substitutes `{{name}}` placeholders with variable values.
///
/// Environment variables take precedence over globals, and globals over the
/// system variables (`$timestamp`, `$timestamp_iso`, `$randomInt`, `$guid`).
pub struct VariableResolver {
    environment: Vec<(String, String)>,
    globals: Vec<(String, String)>,
    system: Vec<(String, String)>,
}

/// The names of the system variables, in order.
pub open spec fn system_keys() -> Seq<Seq<char>> {
    seq!["$timestamp"@, "$timestamp_iso"@, "$randomInt"@, "$guid"@]
}

impl VariableResolver {
    pub closed spec fn environment_vars(&self) -> Seq<(Seq<char>, Seq<char>)> {
        pairs_view(self.environment@)
    }

    pub closed spec fn global_vars(&self) -> Seq<(Seq<char>, Seq<char>)> {
        pairs_view(self.globals@)
    }

    pub closed spec fn system_vars(&self) -> Seq<(Seq<char>, Seq<char>)> {
        pairs_view(self.system@)
    }

    /// What `resolve` makes of the text `s`.
    pub open spec fn resolved(&self, s: Seq<char>) -> Seq<char> {
        interleave(
            literal_pieces(s),
            placeholder_names(s),
            self.environment_vars(),
            self.global_vars(),
            self.system_vars(),
        )
    }

    /// What `resolve_recursive` makes of `s`: resolving again while the text
    /// changes, at most `depth` times.
    pub open spec fn resolved_repeatedly(&self, s: Seq<char>, depth: nat) -> Seq<char>
        decreases depth,
    {
        if depth == 0 {
            s
        } else if self.resolved(s) == s {
            s
        } else {
            self.resolved_repeatedly(self.resolved(s), (depth - 1) as nat)
        }
    }

    pub fn new() -> (r: Self)
        ensures
            r.environment_vars().len() == 0,
            r.global_vars().len() == 0,
            r.system_vars().map_values(|p: (Seq<char>, Seq<char>)| p.0) == system_keys(),
    {
        VariableResolver {
            environment: Vec::new(),
            globals: Vec::new(),
            system: Self::init_system_vars(),
        }
    }

    /// Uses `vars` as the environment variables; a later pair overrides an
    /// earlier one with the same key.
    pub fn with_environment(self, vars: Vec<(String, String)>) -> (r: Self)
        ensures
            r.environment_vars() == pairs_view(vars@),
            r.global_vars() == self.global_vars(),
            r.system_vars() == self.system_vars(),
    {
        VariableResolver { environment: vars, globals: self.globals, system: self.system }
    }

    /// Uses `vars` as the global variables; a later pair overrides an earlier
    /// one with the same key.
    pub fn with_globals(self, vars: Vec<(String, String)>) -> (r: Self)
        ensures
            r.environment_vars() == self.environment_vars(),
            r.global_vars() == pairs_view(vars@),
            r.system_vars() == self.system_vars(),
    {
        VariableResolver { environment: self.environment, globals: vars, system: self.system }
    }

    fn init_system_vars() -> (r: Vec<(String, String)>)
        ensures
            pairs_view(r@).map_values(|p: (Seq<char>, Seq<char>)| p.0) == system_keys(),
    {
        let mut vars: Vec<(String, String)> = Vec::new();
        vars.push((String::from_str("$timestamp"), unix_seconds().to_string()));
        vars.push((String::from_str("$timestamp_iso"), now_rfc3339()));
        let n: u32 = rand::random::<u32>();
        vars.push((String::from_str("$randomInt"), (n % 10000).to_string()));
        vars.push((String::from_str("$guid"), uuid_text(new_id())));
        assert(pairs_view(vars@).map_values(|p: (Seq<char>, Seq<char>)| p.0) =~= system_keys());
        vars
    }

    /// The text a placeholder named `name` becomes.
    fn replacement_for(&self, name: &String) -> (r: String)
        ensures
            r@ == replacement(
                self.environment_vars(),
                self.global_vars(),
                self.system_vars(),
                name@,
            ),
    {
        match lookup_pair(&self.environment, name) {
            Some(v) => v,
            None => match lookup_pair(&self.globals, name) {
                Some(v) => v,
                None => match lookup_pair(&self.system, name) {
                    Some(v) => v,
                    None => String::from_str("{{").concat(name.as_str()).concat("}}"),
                },
            },
        }
    }

    /// Joins `pieces` with the replacement of each of `names` in between:
    /// `pieces[0]`, the replacement of `names[0]`, `pieces[1]`, and so on.
    pub fn substitute(&self, pieces: &Vec<String>, names: &Vec<String>) -> (r: String)
        requires
            pieces@.len() == names@.len() + 1,
        ensures
            r@ == interleave(
                strings_view(pieces@),
                strings_view(names@),
                self.environment_vars(),
                self.global_vars(),
                self.system_vars(),
            ),
    {
        let ghost pv = strings_view(pieces@);
        let ghost nv = strings_view(names@);
        let mut out = pieces[0].clone();
        let mut i: usize = 0;
        assert(interleave(
            pv.take(1),
            nv.take(0),
            self.environment_vars(),
            self.global_vars(),
            self.system_vars(),
        ) == pv[0]);
        while i < names.len()
            invariant
                pieces@.len() == names@.len() + 1,
                i <= names@.len(),
                pv == strings_view(pieces@),
                nv == strings_view(names@),
                out@ == interleave(
                    pv.take(i + 1),
                    nv.take(i as int),
                    self.environment_vars(),
                    self.global_vars(),
                    self.system_vars(),
                ),
            decreases names@.len() - i,
        {
            let rep = self.replacement_for(&names[i]);
            out = out.concat(rep.as_str()).concat(pieces[i + 1].as_str());
            proof {
                assert(pv.take(i + 2).drop_last() =~= pv.take(i + 1));
                assert(nv.take(i + 1).drop_last() =~= nv.take(i as int));
                assert(pv.take(i + 2).last() == pieces@[i + 1]@);
                assert(nv.take(i + 1).last() == names@[i as int]@);
            }
            i = i + 1;
        }
        assert(pv.take(i + 1) =~= pv);
        assert(nv.take(i as int) =~= nv);
        out
    }

    /// Replaces every `{{name}}` placeholder of `input` with the value of the
    /// variable of that name; unknown names stay as they are.
    pub fn resolve(&self, input: &str) -> (r: String)
        ensures
            r@ == self.resolved(input@),
    {
        let names = find_placeholder_names(input);
        let pieces = split_at_placeholders(input);
        self.substitute(&pieces, &names)
    }

    /// Resolves again and again, while the text changes, at most `max_depth`
    /// times, so that values may themselves hold placeholders.
    pub fn resolve_recursive(&self, input: &str, max_depth: usize) -> (r: String)
        ensures
            r@ == self.resolved_repeatedly(input@, max_depth as nat),
    {
        let mut result = String::from_str(input);
        let mut i: usize = 0;
        while i < max_depth
            invariant
                i <= max_depth,
                self.resolved_repeatedly(input@, max_depth as nat) == self.resolved_repeatedly(
                    result@,
                    (max_depth - i) as nat,
                ),
            decreases max_depth - i,
        {
            let resolved = self.resolve(result.as_str());
            if resolved == result {
                return result;
            }
            result = resolved;
            i = i + 1;
        }
        result
    }

    /// Draws fresh system variables (time, random number, identifier).
    pub fn refresh_system_vars(&mut self)
        ensures
            final(self).environment_vars() == old(self).environment_vars(),
            final(self).global_vars() == old(self).global_vars(),
            final(self).system_vars().map_values(|p: (Seq<char>, Seq<char>)| p.0) == system_keys(),
    {
        self.system = Self::init_system_vars();
    }
}

impl Default for VariableResolver {
    fn default() -> (r: Self)
        ensures
            r.environment_vars().len() == 0,
            r.global_vars().len() == 0,
    {
        Self::new()
    }
}

} // verus!
