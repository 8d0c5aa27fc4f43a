//! The launcher's key/value store and the substitution of `${key}`
//! placeholders in argument templates.

use vstd::prelude::*;
use vstd::string::*;
use crate::text::{from_chars, str_eq, to_chars, views};

verus! {

/// One variable with its value.
struct Binding {
    name: String,
    value: String,
}

/// A store of string variables. Its view is the map from each variable's
/// name to its value.
pub struct Environment {
    entries: Vec<Binding>,
}

/// The outcome of resolving a template: the text, and the keys of the
/// placeholders that had no binding, one for each occurrence, in order.
#[derive(Debug)]
pub struct Resolution {
    pub text: String,
    pub undefined: Vec<String>,
}

/// The mathematical value of a [`Resolution`].
pub struct ResolutionView {
    pub text: Seq<char>,
    pub undefined: Seq<Seq<char>>,
}

impl View for Resolution {
    type V = ResolutionView;

    open spec fn view(&self) -> ResolutionView {
        ResolutionView { text: self.text@, undefined: views(self.undefined@) }
    }
}

/// Whether a placeholder opens at `i`: the two characters `${`.
pub open spec fn opens_at(t: Seq<char>, i: int) -> bool {
    0 <= i && i + 1 < t.len() && t[i] == '$' && t[i + 1] == '{'
}

/// Whether `t[i..=j]` is the first placeholder of `t`: it opens at `i`, no
/// placeholder opens before `i`, and `j` is the first `}` after the opening.
/// The key between them may hold any character but `}`.
pub open spec fn first_token(t: Seq<char>, i: int, j: int) -> bool {
    &&& opens_at(t, i)
    &&& i + 2 <= j < t.len()
    &&& t[j] == '}'
    &&& forall|k: int| i + 2 <= k < j ==> t[k] != '}'
    &&& forall|k: int| 0 <= k < i ==> !opens_at(t, k)
}

/// Whether `t` holds a placeholder.
pub open spec fn has_token(t: Seq<char>) -> bool {
    exists|b: (int, int)| first_token(t, b.0, b.1)
}

/// Where the first placeholder of `t` starts and ends, if it has one.
pub open spec fn token_bounds(t: Seq<char>) -> (int, int) {
    choose|b: (int, int)| first_token(t, b.0, b.1)
}

/// The value bound to `key`, or the empty string where there is none.
pub open spec fn binding_or_empty(m: Map<Seq<char>, Seq<char>>, key: Seq<char>) -> Seq<char> {
    if m.contains_key(key) {
        m[key]
    } else {
        Seq::empty()
    }
}

/// The template with every placeholder, from left to right, replaced by
/// the value bound to its key, or by nothing where the key is unbound.
/// Text that is substituted in is not scanned again.
pub open spec fn resolved(t: Seq<char>, m: Map<Seq<char>, Seq<char>>) -> Seq<char>
    decreases t.len(),
{
    if has_token(t) {
        let (i, j) = token_bounds(t);
        t.take(i) + binding_or_empty(m, t.subrange(i + 2, j)) + resolved(t.skip(j + 1), m)
    } else {
        t
    }
}

/// The keys of the placeholders of `t` that have no binding in `m`, one for
/// each occurrence, from left to right.
pub open spec fn undefined_keys(t: Seq<char>, m: Map<Seq<char>, Seq<char>>) -> Seq<Seq<char>>
    decreases t.len(),
{
    if has_token(t) {
        let (i, j) = token_bounds(t);
        let key = t.subrange(i + 2, j);
        let rest = undefined_keys(t.skip(j + 1), m);
        if m.contains_key(key) {
            rest
        } else {
            seq![key] + rest
        }
    } else {
        Seq::empty()
    }
}

/// A template has at most one first placeholder.
pub proof fn lemma_first_token_unique(t: Seq<char>, i: int, j: int)
    requires
        first_token(t, i, j),
    ensures
        has_token(t),
        token_bounds(t) == (i, j),
{
    assert(first_token(t, (i, j).0, (i, j).1));
    let b = token_bounds(t);
    assert(first_token(t, b.0, b.1));
    if b.0 < i {
        assert(opens_at(t, b.0));
    }
    if i < b.0 {
        assert(opens_at(t, i));
    }
    if b.1 < j {
        assert(t[b.1] == '}');
    }
    if j < b.1 {
        assert(t[j] == '}');
    }
}

/// Whether no two of the bindings have the same name.
spec fn distinct_names(entries: Seq<Binding>) -> bool {
    forall|i: int, j: int|
        0 <= i < entries.len() && 0 <= j < entries.len() && i != j ==> (#[trigger] entries[i]).name@
            != (#[trigger] entries[j]).name@
}

/// Whether one of the bindings has the name `key`.
spec fn names_hold(entries: Seq<Binding>, key: Seq<char>) -> bool {
    exists|i: int| 0 <= i < entries.len() && (#[trigger] entries[i]).name@ == key
}

/// The position of a binding named `key`.
spec fn position(entries: Seq<Binding>, key: Seq<char>) -> int {
    choose|i: int| 0 <= i < entries.len() && (#[trigger] entries[i]).name@ == key
}

/// The map that the bindings stand for.
spec fn bindings_map(entries: Seq<Binding>) -> Map<Seq<char>, Seq<char>> {
    Map::new(
        |key: Seq<char>| names_hold(entries, key),
        |key: Seq<char>| entries[position(entries, key)].value@,
    )
}

/// With distinct names, each binding is found in the map under its name.
proof fn lemma_binding_in_map(entries: Seq<Binding>, i: int)
    requires
        distinct_names(entries),
        0 <= i < entries.len(),
    ensures
        bindings_map(entries).contains_key(entries[i].name@),
        bindings_map(entries)[entries[i].name@] == entries[i].value@,
{
    let key = entries[i].name@;
    assert(names_hold(entries, key));
    let p = position(entries, key);
    assert(0 <= p < entries.len() && entries[p].name@ == key);
    assert(p == i);
}

/// Replacing a binding by one of the same name binds the name anew and
/// leaves the other names as they were.
proof fn lemma_replace_binds(before: Seq<Binding>, i: int, binding: Binding)
    requires
        distinct_names(before),
        0 <= i < before.len(),
        before[i].name@ == binding.name@,
    ensures
        distinct_names(before.update(i, binding)),
        bindings_map(before.update(i, binding)) == bindings_map(before).insert(
            binding.name@,
            binding.value@,
        ),
{
    let after = before.update(i, binding);
    assert forall|a: int, b: int|
        0 <= a < after.len() && 0 <= b < after.len() && a != b implies (#[trigger] after[a]).name@
        != (#[trigger] after[b]).name@ by {
        assert(after[a].name@ == before[a].name@);
        assert(after[b].name@ == before[b].name@);
    }
    assert forall|key: Seq<char>|
        names_hold(after, key) <==> names_hold(before, key) || key == binding.name@ by {
        if names_hold(after, key) {
            let p = position(after, key);
            assert(before[p].name@ == after[p].name@);
        }
        if names_hold(before, key) {
            let p = position(before, key);
            assert(after[p].name@ == before[p].name@);
        }
        if key == binding.name@ {
            assert(after[i].name@ == key);
        }
    }
    assert forall|key: Seq<char>| names_hold(after, key) implies bindings_map(after)[key] == (
    if key == binding.name@ {
        binding.value@
    } else {
        bindings_map(before)[key]
    }) by {
        let p = position(after, key);
        lemma_binding_in_map(after, p);
        if p != i {
            assert(after[p] == before[p]);
            lemma_binding_in_map(before, p);
        }
    }
    assert(bindings_map(after) =~= bindings_map(before).insert(binding.name@, binding.value@));
}

/// Appending a binding of a new name binds that name and leaves the other
/// names as they were.
proof fn lemma_push_binds(before: Seq<Binding>, binding: Binding)
    requires
        distinct_names(before),
        !names_hold(before, binding.name@),
    ensures
        distinct_names(before.push(binding)),
        bindings_map(before.push(binding)) == bindings_map(before).insert(
            binding.name@,
            binding.value@,
        ),
{
    let after = before.push(binding);
    let last = before.len() as int;
    assert forall|a: int, b: int|
        0 <= a < after.len() && 0 <= b < after.len() && a != b implies (#[trigger] after[a]).name@
        != (#[trigger] after[b]).name@ by {
        if a < last {
            assert(after[a] == before[a]);
        }
        if b < last {
            assert(after[b] == before[b]);
        }
    }
    assert forall|key: Seq<char>|
        names_hold(after, key) <==> names_hold(before, key) || key == binding.name@ by {
        if names_hold(after, key) {
            let p = position(after, key);
            if p < last {
                assert(before[p] == after[p]);
            }
        }
        if names_hold(before, key) {
            let p = position(before, key);
            assert(after[p] == before[p]);
        }
        if key == binding.name@ {
            assert(after[last].name@ == key);
        }
    }
    assert forall|key: Seq<char>| names_hold(after, key) implies bindings_map(after)[key] == (
    if key == binding.name@ {
        binding.value@
    } else {
        bindings_map(before)[key]
    }) by {
        let p = position(after, key);
        lemma_binding_in_map(after, p);
        if p < last {
            assert(after[p] == before[p]);
            lemma_binding_in_map(before, p);
        }
    }
    assert(bindings_map(after) =~= bindings_map(before).insert(binding.name@, binding.value@));
}

/// Taking a binding out unbinds its name and leaves the other names as
/// they were.
proof fn lemma_remove_unbinds(before: Seq<Binding>, i: int)
    requires
        distinct_names(before),
        0 <= i < before.len(),
    ensures
        distinct_names(before.remove(i)),
        bindings_map(before.remove(i)) == bindings_map(before).remove(before[i].name@),
{
    let after = before.remove(i);
    let gone = before[i].name@;
    assert forall|a: int| 0 <= a < after.len() implies #[trigger] after[a] == before[if a < i {
        a
    } else {
        a + 1
    }] by {}
    assert forall|a: int, b: int|
        0 <= a < after.len() && 0 <= b < after.len() && a != b implies (#[trigger] after[a]).name@
        != (#[trigger] after[b]).name@ by {}
    assert forall|key: Seq<char>|
        names_hold(after, key) <==> names_hold(before, key) && key != gone by {
        if names_hold(after, key) {
            let p = position(after, key);
            let q = if p < i { p } else { p + 1 };
            assert(before[q].name@ == key);
        }
        if names_hold(before, key) && key != gone {
            let q = position(before, key);
            let p = if q < i { q } else { q - 1 };
            assert(after[p].name@ == key);
        }
    }
    assert forall|key: Seq<char>| names_hold(after, key) implies bindings_map(after)[key]
        == bindings_map(before)[key] by {
        let p = position(after, key);
        let q = if p < i { p } else { p + 1 };
        lemma_binding_in_map(after, p);
        lemma_binding_in_map(before, q);
    }
    assert(bindings_map(after) =~= bindings_map(before).remove(gone));
}

impl View for Environment {
    type V = Map<Seq<char>, Seq<char>>;

    closed spec fn view(&self) -> Map<Seq<char>, Seq<char>> {
        bindings_map(self.entries@)
    }
}

impl Environment {
    #[verifier::type_invariant]
    spec fn well_formed(self) -> bool {
        distinct_names(self.entries@)
    }

    /// A store without variables.
    pub fn new() -> (env: Environment)
        ensures
            env@ == Map::<Seq<char>, Seq<char>>::empty(),
    {
        let env = Environment { entries: Vec::new() };
        assert(env@ =~= Map::<Seq<char>, Seq<char>>::empty());
        env
    }

    /// The position of the binding of `variable`, if it has one.
    fn find(&self, variable: &str) -> (found: Option<usize>)
        ensures
            match found {
                Some(i) => i < self.entries.len() && self.entries[i as int].name@ == variable@,
                None => !names_hold(self.entries@, variable@),
            },
    {
        let mut i: usize = 0;
        while i < self.entries.len()
            invariant
                i <= self.entries.len(),
                forall|k: int| 0 <= k < i ==> (#[trigger] self.entries[k]).name@ != variable@,
            decreases self.entries.len() - i,
        {
            if str_eq(self.entries[i].name.as_str(), variable) {
                return Some(i);
            }
            i += 1;
        }
        None
    }

    /// The value of `variable`, if it is bound.
    pub fn get(&self, variable: &str) -> (value: Option<&String>)
        ensures
            match value {
                Some(v) => self@.contains_key(variable@) && v@ == self@[variable@],
                None => !self@.contains_key(variable@),
            },
    {
        proof {
            use_type_invariant(self);
        }
        match self.find(variable) {
            Some(i) => {
                proof {
                    lemma_binding_in_map(self.entries@, i as int);
                }
                Some(&self.entries[i].value)
            },
            None => None,
        }
    }

    /// Binds `variable` to `value`, in place of any earlier value.
    pub fn set(&mut self, variable: &str, value: &str)
        ensures
            final(self)@ == old(self)@.insert(variable@, value@),
    {
        proof {
            use_type_invariant(&*self);
        }
        let binding = Binding { name: String::from_str(variable), value: String::from_str(value) };
        let found = self.find(variable);
        let mut entries: Vec<Binding> = Vec::new();
        core::mem::swap(&mut self.entries, &mut entries);
        match found {
            Some(i) => {
                proof {
                    lemma_replace_binds(entries@, i as int, binding);
                }
                entries.set(i, binding);
            },
            None => {
                proof {
                    lemma_push_binds(entries@, binding);
                }
                entries.push(binding);
            },
        }
        self.entries = entries;
    }

    /// Removes the binding of `variable`, if there is one.
    pub fn remove(&mut self, variable: &str)
        ensures
            final(self)@ == old(self)@.remove(variable@),
    {
        proof {
            use_type_invariant(&*self);
        }
        match self.find(variable) {
            Some(i) => {
                let mut entries: Vec<Binding> = Vec::new();
                core::mem::swap(&mut self.entries, &mut entries);
                proof {
                    lemma_remove_unbinds(entries@, i as int);
                }
                entries.remove(i);
                self.entries = entries;
            },
            None => {
                assert(bindings_map(self.entries@) =~= bindings_map(self.entries@).remove(
                    variable@,
                ));
            },
        }
    }
}

/// The first position at or after `from` where a placeholder opens, or the
/// length of `t` where none does.
fn find_open(t: &Vec<char>, from: usize) -> (at: usize)
    requires
        from <= t.len(),
    ensures
        from <= at <= t.len(),
        at < t.len() ==> opens_at(t@, at as int),
        forall|k: int| from <= k < at ==> !opens_at(t@, k),
{
    let mut i: usize = from;
    while i < t.len()
        invariant
            from <= i <= t.len(),
            forall|k: int| from <= k < i ==> !opens_at(t@, k),
        decreases t.len() - i,
    {
        if t[i] == '$' && i + 1 < t.len() && t[i + 1] == '{' {
            return i;
        }
        i += 1;
    }
    i
}

/// The first position at or after `from` that holds `}`, or the length of
/// `t` where none does.
fn find_close(t: &Vec<char>, from: usize) -> (at: usize)
    requires
        from <= t.len(),
    ensures
        from <= at <= t.len(),
        at < t.len() ==> t@[at as int] == '}',
        forall|k: int| from <= k < at ==> t@[k] != '}',
{
    let mut i: usize = from;
    while i < t.len()
        invariant
            from <= i <= t.len(),
            forall|k: int| from <= k < i ==> t@[k] != '}',
        decreases t.len() - i,
    {
        if t[i] == '}' {
            return i;
        }
        i += 1;
    }
    i
}

/// Appends `chars[from..to]` to `out`.
fn push_range(out: &mut String, chars: &Vec<char>, from: usize, to: usize)
    requires
        from <= to <= chars.len(),
    ensures
        final(out)@ == old(out)@ + chars@.subrange(from as int, to as int),
{
    let mut i: usize = from;
    while i < to
        invariant
            from <= i <= to <= chars.len(),
            out@ == old(out)@ + chars@.subrange(from as int, i as int),
        decreases to - i,
    {
        out.push(chars[i]);
        i += 1;
    }
}

/// A suffix without an opening holds no placeholder.
proof fn lemma_no_open_no_token(t: Seq<char>, pos: int)
    requires
        0 <= pos <= t.len(),
        forall|k: int| pos <= k < t.len() ==> !opens_at(t, k),
    ensures
        !has_token(t.skip(pos)),
{
    let s = t.skip(pos);
    assert forall|b: (int, int)| !first_token(s, b.0, b.1) by {
        if first_token(s, b.0, b.1) {
            assert(opens_at(t, pos + b.0));
        }
    }
}

/// A suffix whose first opening is never closed holds no placeholder.
proof fn lemma_unclosed_no_token(t: Seq<char>, pos: int, open: int)
    requires
        0 <= pos <= open < t.len(),
        opens_at(t, open),
        forall|k: int| pos <= k < open ==> !opens_at(t, k),
        forall|k: int| open + 2 <= k < t.len() ==> t[k] != '}',
    ensures
        !has_token(t.skip(pos)),
{
    let s = t.skip(pos);
    assert forall|b: (int, int)| !first_token(s, b.0, b.1) by {
        if first_token(s, b.0, b.1) {
            assert(opens_at(t, pos + b.0));
            assert(opens_at(s, open - pos));
            assert(b.0 == open - pos);
            assert(t[pos + b.1] == '}');
        }
    }
}

/// The first placeholder of a suffix, given where it opens and closes in
/// the whole template.
proof fn lemma_token_of_suffix(t: Seq<char>, pos: int, open: int, close: int)
    requires
        0 <= pos <= open,
        open + 2 <= close < t.len(),
        opens_at(t, open),
        t[close] == '}',
        forall|k: int| pos <= k < open ==> !opens_at(t, k),
        forall|k: int| open + 2 <= k < close ==> t[k] != '}',
    ensures
        has_token(t.skip(pos)),
        token_bounds(t.skip(pos)) == (open - pos, close - pos),
        t.skip(pos).take(open - pos) == t.subrange(pos, open),
        t.skip(pos).subrange(open - pos + 2, close - pos) == t.subrange(open + 2, close),
        t.skip(pos).skip(close - pos + 1) == t.skip(close + 1),
{
    let s = t.skip(pos);
    assert(first_token(s, open - pos, close - pos)) by {
        assert forall|k: int| 0 <= k < open - pos implies !opens_at(s, k) by {
            assert(!opens_at(t, pos + k));
        }
    }
    lemma_first_token_unique(s, open - pos, close - pos);
    assert(s.take(open - pos) =~= t.subrange(pos, open));
    assert(s.subrange(open - pos + 2, close - pos) =~= t.subrange(open + 2, close));
    assert(s.skip(close - pos + 1) =~= t.skip(close + 1));
}

impl Environment {
    /// Resolves the placeholders of `template` and reports the keys that had
    /// no binding.
    pub fn resolve_reporting(&self, template: &str) -> (r: Resolution)
        ensures
            r@ == (ResolutionView {
                text: resolved(template@, self@),
                undefined: undefined_keys(template@, self@),
            }),
    {
        let t = to_chars(template);
        let n = t.len();
        let mut text = String::new();
        let mut undefined: Vec<String> = Vec::new();
        let mut pos: usize = 0;
        assert(t@.skip(0) =~= t@);
        assert(views(undefined@) =~= Seq::<Seq<char>>::empty());
        loop
            invariant_except_break
                pos <= n,
                n == t.len(),
                resolved(t@, self@) == text@ + resolved(t@.skip(pos as int), self@),
                undefined_keys(t@, self@) == views(undefined@) + undefined_keys(
                    t@.skip(pos as int),
                    self@,
                ),
            ensures
                text@ == resolved(t@, self@),
                views(undefined@) == undefined_keys(t@, self@),
            decreases n - pos,
        {
            let open = find_open(&t, pos);
            if open == n {
                proof {
                    lemma_no_open_no_token(t@, pos as int);
                    assert(t@.skip(pos as int) =~= t@.subrange(pos as int, n as int));
                }
                push_range(&mut text, &t, pos, n);
                break ;
            }
            let close = find_close(&t, open + 2);
            if close == n {
                proof {
                    lemma_unclosed_no_token(t@, pos as int, open as int);
                    assert(t@.skip(pos as int) =~= t@.subrange(pos as int, n as int));
                }
                push_range(&mut text, &t, pos, n);
                break ;
            }
            proof {
                lemma_token_of_suffix(t@, pos as int, open as int, close as int);
            }
            push_range(&mut text, &t, pos, open);
            let key = from_chars(&t, open + 2, close);
            match self.get(key.as_str()) {
                Some(value) => {
                    text.append(value.as_str());
                },
                None => {
                    let ghost earlier = undefined@;
                    undefined.push(key);
                    assert(views(undefined@) =~= views(earlier) + seq![key@]);
                },
            }
            pos = close + 1;
        }
        Resolution { text, undefined }
    }

    /// Resolves the placeholders of `fmt_string`; a key without a binding
    /// resolves to nothing.
    pub fn resolve(&self, fmt_string: &str) -> (text: String)
        ensures
            text@ == resolved(fmt_string@, self@),
    {
        self.resolve_reporting(fmt_string).text
    }
}

impl Clone for Environment {
    /// A store with the same bindings.
    fn clone(&self) -> (copy: Environment)
        ensures
            copy@ == self@,
    {
        proof {
            use_type_invariant(self);
        }
        let mut entries: Vec<Binding> = Vec::new();
        let mut i: usize = 0;
        while i < self.entries.len()
            invariant
                i <= self.entries.len(),
                entries@ == self.entries@.take(i as int),
            decreases self.entries.len() - i,
        {
            let binding = Binding {
                name: self.entries[i].name.clone(),
                value: self.entries[i].value.clone(),
            };
            entries.push(binding);
            assert(entries@ =~= self.entries@.take(i + 1));
            i += 1;
        }
        assert(entries@ =~= self.entries@);
        Environment { entries }
    }
}

/// The text of a placeholder for `key`.
pub open spec fn placeholder(key: Seq<char>) -> Seq<char> {
    seq!['$', '{'] + key + seq!['}']
}

/// Resolving leaves a template without placeholders as it is and reports
/// nothing, so resolving it again changes nothing.
pub proof fn lemma_resolve_without_tokens(t: Seq<char>, m: Map<Seq<char>, Seq<char>>)
    requires
        !has_token(t),
    ensures
        resolved(t, m) == t,
        resolved(resolved(t, m), m) == resolved(t, m),
        undefined_keys(t, m) == Seq::<Seq<char>>::empty(),
{
}

/// A template that is one placeholder resolves to the value of its key. If
/// the key is unbound it resolves to the empty string, and the key is
/// reported once.
pub proof fn lemma_resolve_placeholder(key: Seq<char>, m: Map<Seq<char>, Seq<char>>)
    requires
        forall|k: int| 0 <= k < key.len() ==> key[k] != '}',
    ensures
        resolved(placeholder(key), m) == binding_or_empty(m, key),
        m.contains_key(key) ==> undefined_keys(placeholder(key), m) == Seq::<Seq<char>>::empty(),
        !m.contains_key(key) ==> resolved(placeholder(key), m) == Seq::<char>::empty(),
        !m.contains_key(key) ==> undefined_keys(placeholder(key), m) == seq![key],
{
    let t = placeholder(key);
    let j: int = key.len() as int + 2;
    assert(t.len() == key.len() + 3);
    assert(t[0] == '$' && t[1] == '{' && t[j] == '}');
    assert forall|k: int| 2 <= k < j implies t[k] != '}' by {
        assert(t[k] == key[k - 2]);
    }
    assert(first_token(t, 0, j));
    lemma_first_token_unique(t, 0, j);
    assert(t.take(0) =~= Seq::<char>::empty());
    assert(t.subrange(2, j) =~= key);
    let rest = t.skip(j + 1);
    assert(rest =~= Seq::<char>::empty());
    assert(!has_token(rest)) by {
        assert forall|b: (int, int)| !first_token(rest, b.0, b.1) by {}
    }
    assert(resolved(rest, m) == rest);
    assert(undefined_keys(rest, m) == Seq::<Seq<char>>::empty());
    assert(resolved(t, m) =~= binding_or_empty(m, key));
    if !m.contains_key(key) {
        assert(undefined_keys(t, m) =~= seq![key]);
    }
}

} // verus!
