use vstd::prelude::*;
use vstd::std_specs::iter::IteratorSpec;
use vstd::string::StringExecFns;

verus! {

/// The characters of `s`, in order.
pub(crate) fn chars_of(s: &str) -> (r: Vec<char>)
    ensures
        r@ == s@,
{
    broadcast use vstd::string::group_string_axioms;

    let mut it = s.chars();
    let mut r: Vec<char> = Vec::new();
    loop
        invariant
            it.obeys_prophetic_iter_laws(),
            it.decrease() is Some,
            r@ + it.remaining() == s@,
        ensures
            r@ == s@,
        decreases it.decrease()->0,
    {
        match it.next() {
            Some(c) => {
                r.push(c);
            },
            None => {
                assert(r@ =~= r@ + it.remaining());
                break;
            },
        }
    }
    r
}

/// Relies on `String: FromIterator<char>`: the string made of the characters, in order.
#[verifier::external_body]
pub(crate) fn string_of(chars: &Vec<char>) -> (r: String)
    ensures
        r@ == chars@,
{
    chars.iter().collect()
}

/// Characters that may follow `$` in a placeholder name.
pub open spec fn is_ident_char(c: char) -> bool {
    ('a' <= c && c <= 'z') || ('A' <= c && c <= 'Z') || ('0' <= c && c <= '9') || c == '_'
}

/// The length of the longest run of name characters at the start of `s`.
pub open spec fn ident_len(s: Seq<char>) -> nat
    decreases s.len(),
{
    if s.len() > 0 && is_ident_char(s[0]) {
        1 + ident_len(s.drop_first())
    } else {
        0
    }
}

pub proof fn lemma_ident_len_bound(s: Seq<char>)
    ensures
        ident_len(s) <= s.len(),
    decreases s.len(),
{
    if s.len() > 0 && is_ident_char(s[0]) {
        lemma_ident_len_bound(s.drop_first());
    }
}

/// `s` with every placeholder (`$` followed by a maximal non-empty run of
/// name characters) replaced, in one left-to-right pass, by the context's
/// value for that name; a placeholder whose name the context lacks stays as
/// it is. Substituted values are not scanned again.
pub open spec fn interpolated(s: Seq<char>, ctx: Map<Seq<char>, Seq<char>>) -> Seq<char>
    decreases s.len(),
{
    if s.len() == 0 {
        Seq::empty()
    } else if s[0] == '$' && ident_len(s.drop_first()) > 0 {
        proof {
            lemma_ident_len_bound(s.drop_first());
        }
        let end = ident_len(s.drop_first()) + 1int;
        let name = s.subrange(1, end);
        let head = if ctx.contains_key(name) {
            ctx[name]
        } else {
            s.subrange(0, end)
        };
        head + interpolated(s.subrange(end, s.len() as int), ctx)
    } else {
        seq![s[0]] + interpolated(s.drop_first(), ctx)
    }
}

/// Whether `s` holds at least one placeholder.
pub open spec fn has_placeholder(s: Seq<char>) -> bool {
    exists|i: int| 0 <= i < s.len() - 1 && #[trigger] s[i] == '$' && is_ident_char(s[i + 1])
}

/// The values bound to the template's argument keys, one per key.
pub struct Context {
    keys: Vec<String>,
    values: Vec<String>,
}

impl View for Context {
    type V = Map<Seq<char>, Seq<char>>;

    closed spec fn view(&self) -> Map<Seq<char>, Seq<char>> {
        Map::new(
            |k: Seq<char>| exists|i: int| 0 <= i < self.keys.len() && self.keys[i]@ == k,
            |k: Seq<char>|
                self.values[choose|i: int| 0 <= i < self.keys.len() && self.keys[i]@ == k]@,
        )
    }
}

impl Context {
    /// The keys are unique and each has its value.
    pub closed spec fn wf(&self) -> bool {
        &&& self.keys.len() == self.values.len()
        &&& forall|i: int, j: int|
            0 <= i < self.keys.len() && 0 <= j < self.keys.len() && i != j
                ==> self.keys[i]@ != self.keys[j]@
    }

    proof fn lemma_view(&self)
        requires
            self.wf(),
        ensures
            forall|k: Seq<char>|
                self@.contains_key(k) <==> exists|i: int|
                    0 <= i < self.keys.len() && self.keys[i]@ == k,
            forall|i: int|
                0 <= i < self.keys.len() ==> #[trigger] self@[self.keys[i]@] == self.values[i]@,
    {
        assert forall|i: int| 0 <= i < self.keys.len() implies #[trigger] self@[self.keys[i]@]
            == self.values[i]@ by {
            let k = self.keys[i]@;
            assert(self@.contains_key(k));
            let j = choose|j: int| 0 <= j < self.keys.len() && self.keys[j]@ == k;
            assert(j == i);
        }
    }

    pub fn new() -> (r: Context)
        ensures
            r.wf(),
            r@ == Map::<Seq<char>, Seq<char>>::empty(),
    {
        let r = Context { keys: Vec::new(), values: Vec::new() };
        assert(r@ =~= Map::<Seq<char>, Seq<char>>::empty());
        r
    }

    fn position(&self, key: &str) -> (r: Option<usize>)
        requires
            self.wf(),
        ensures
            match r {
                Some(i) => i < self.keys.len() && self.keys[i as int]@ == key@,
                None => !self@.contains_key(key@),
            },
    {
        proof {
            self.lemma_view();
        }
        let wanted = String::from_str(key);
        let mut i: usize = 0;
        while i < self.keys.len()
            invariant
                i <= self.keys.len(),
                wanted@ == key@,
                forall|j: int| 0 <= j < i ==> self.keys[j]@ != key@,
            decreases self.keys.len() - i,
        {
            if self.keys[i] == wanted {
                return Some(i);
            }
            i = i + 1;
        }
        None
    }

    /// The value bound to `key`, if any.
    pub fn get(&self, key: &str) -> (r: Option<&String>)
        requires
            self.wf(),
        ensures
            match r {
                Some(v) => self@.contains_key(key@) && v@ == self@[key@],
                None => !self@.contains_key(key@),
            },
    {
        proof {
            self.lemma_view();
        }
        match self.position(key) {
            Some(i) => Some(&self.values[i]),
            None => None,
        }
    }

    /// Binds `key` to `value`, replacing an earlier value of `key`.
    pub fn insert(&mut self, key: String, value: String)
        requires
            old(self).wf(),
        ensures
            final(self).wf(),
            final(self)@ == old(self)@.insert(key@, value@),
    {
        proof {
            self.lemma_view();
        }
        let ghost before = *self;
        match self.position(key.as_str()) {
            Some(i) => {
                self.values.set(i, value);
                proof {
                    self.lemma_view();
                    assert forall|k: Seq<char>| #[trigger]
                        self@.contains_key(k) == before@.insert(key@, value@).contains_key(k) by {
                        if k == key@ {
                            assert(self.keys[i as int]@ == k);
                        }
                    }
                    assert forall|k: Seq<char>| #[trigger] self@.contains_key(k) implies self@[k]
                        == before@.insert(key@, value@)[k] by {
                        let j = choose|j: int| 0 <= j < self.keys.len() && self.keys[j]@ == k;
                        assert(self@[self.keys[j]@] == self.values[j]@);
                        assert(before@[before.keys[j]@] == before.values[j]@);
                    }
                    assert(self@ =~= before@.insert(key@, value@));
                }
            },
            None => {
                self.keys.push(key);
                self.values.push(value);
                proof {
                    self.lemma_view();
                    let n = before.keys.len() as int;
                    assert(self.keys[n]@ == key@);
                    assert forall|k: Seq<char>| #[trigger]
                        self@.contains_key(k) == before@.insert(key@, value@).contains_key(k) by {
                        if before@.contains_key(k) {
                            let j = choose|j: int| 0 <= j < before.keys.len() && before.keys[j]@ == k;
                            assert(self.keys[j]@ == k);
                        }
                        if self@.contains_key(k) && k != key@ {
                            let j = choose|j: int| 0 <= j < self.keys.len() && self.keys[j]@ == k;
                            assert(before.keys[j]@ == k);
                        }
                    }
                    assert forall|k: Seq<char>| #[trigger] self@.contains_key(k) implies self@[k]
                        == before@.insert(key@, value@)[k] by {
                        let j = choose|j: int| 0 <= j < self.keys.len() && self.keys[j]@ == k;
                        assert(self@[self.keys[j]@] == self.values[j]@);
                        if j < n {
                            assert(before@[before.keys[j]@] == before.values[j]@);
                        }
                    }
                    assert(self@ =~= before@.insert(key@, value@));
                }
            },
        }
    }
}

/// Whether `c` may stand in a placeholder name.
pub fn is_name_char(c: char) -> (r: bool)
    ensures
        r == is_ident_char(c),
{
    ('a' <= c && c <= 'z') || ('A' <= c && c <= 'Z') || ('0' <= c && c <= '9') || c == '_'
}

/// The length of the run of name characters in `chars` from `start` on.
fn name_len(chars: &Vec<char>, start: usize) -> (n: usize)
    requires
        start <= chars.len(),
    ensures
        n == ident_len(chars@.subrange(start as int, chars.len() as int)),
        start + n <= chars.len(),
{
    let ghost all = chars@.subrange(start as int, chars.len() as int);
    let mut j: usize = start;
    while j < chars.len() && is_name_char(chars[j])
        invariant
            start <= j <= chars.len(),
            all == chars@.subrange(start as int, chars.len() as int),
            ident_len(all) == (j - start) + ident_len(chars@.subrange(j as int, chars.len() as int)),
        decreases chars.len() - j,
    {
        proof {
            let t = chars@.subrange(j as int, chars.len() as int);
            assert(t.drop_first() =~= chars@.subrange(j + 1, chars.len() as int));
        }
        j = j + 1;
    }
    j - start
}

/// The characters of `chars` from `from` up to `to`.
fn chars_between(chars: &Vec<char>, from: usize, to: usize) -> (r: Vec<char>)
    requires
        from <= to <= chars.len(),
    ensures
        r@ == chars@.subrange(from as int, to as int),
{
    let mut r: Vec<char> = Vec::new();
    let mut j: usize = from;
    while j < to
        invariant
            from <= j <= to <= chars.len(),
            r@ == chars@.subrange(from as int, j as int),
        decreases to - j,
    {
        r.push(chars[j]);
        assert(r@ =~= chars@.subrange(from as int, j + 1));
        j = j + 1;
    }
    r
}

/// Replaces every placeholder of `text` by its value in `ctx`; placeholders
/// whose name `ctx` lacks are kept verbatim.
pub fn interpolate(text: &str, ctx: &Context) -> (r: String)
    requires
        ctx.wf(),
    ensures
        r@ == interpolated(text@, ctx@),
{
    let chars = chars_of(text);
    let len = chars.len();
    let mut out: Vec<char> = Vec::new();
    let mut i: usize = 0;
    assert(chars@.subrange(0, len as int) =~= chars@);
    while i < len
        invariant
            i <= len == chars.len(),
            ctx.wf(),
            chars@ == text@,
            out@ + interpolated(chars@.subrange(i as int, len as int), ctx@) == interpolated(
                text@,
                ctx@,
            ),
        decreases len - i,
    {
        let ghost t = chars@.subrange(i as int, len as int);
        let ghost before = out@;
        assert(t.drop_first() =~= chars@.subrange(i + 1, len as int));
        if chars[i] == '$' {
            let n = name_len(&chars, i + 1);
            if n > 0 {
                let end = i + 1 + n;
                let name_chars = chars_between(&chars, i + 1, end);
                let name = string_of(&name_chars);
                assert(name@ == t.subrange(1, n + 1));
                assert(t.subrange(n + 1, t.len() as int) =~= chars@.subrange(end as int, len as int));
                match ctx.get(name.as_str()) {
                    Some(v) => {
                        let mut value = chars_of(v.as_str());
                        out.append(&mut value);
                    },
                    None => {
                        let mut raw = chars_between(&chars, i, end);
                        assert(raw@ == t.subrange(0, n + 1));
                        out.append(&mut raw);
                    },
                }
                assert(out@ + interpolated(chars@.subrange(end as int, len as int), ctx@) =~= before
                    + interpolated(t, ctx@));
                i = end;
            } else {
                out.push('$');
                assert(out@ + interpolated(chars@.subrange(i + 1, len as int), ctx@) =~= before
                    + interpolated(t, ctx@));
                i = i + 1;
            }
        } else {
            out.push(chars[i]);
            assert(out@ + interpolated(chars@.subrange(i + 1, len as int), ctx@) =~= before
                + interpolated(t, ctx@));
            i = i + 1;
        }
    }
    assert(chars@.subrange(len as int, len as int) =~= Seq::<char>::empty());
    assert(out@ =~= interpolated(text@, ctx@));
    string_of(&out)
}

/// The new content of a dynamic file: its interpolated content where the file
/// was read, nothing where it is missing (a missing file is no failure).
pub fn bind_ctx_to_file(content: Option<&str>, ctx: &Context) -> (r: Option<String>)
    requires
        ctx.wf(),
    ensures
        match content {
            Some(c) => r matches Some(w) && w@ == interpolated(c@, ctx@),
            None => r is None,
        },
{
    match content {
        Some(c) => Some(interpolate(c, ctx)),
        None => None,
    }
}

/// Whether `text` holds at least one placeholder.
pub fn contains_placeholder(text: &str) -> (r: bool)
    ensures
        r == has_placeholder(text@),
{
    let chars = chars_of(text);
    if chars.len() < 2 {
        return false;
    }
    let last = chars.len() - 1;
    let mut i: usize = 0;
    while i < last
        invariant
            last == chars.len() - 1,
            chars@ == text@,
            forall|j: int|
                0 <= j < i && j < chars.len() - 1 ==> !(#[trigger] chars@[j] == '$'
                    && is_ident_char(chars@[j + 1])),
        decreases chars.len() - i,
    {
        if chars[i] == '$' && is_name_char(chars[i + 1]) {
            return true;
        }
        i = i + 1;
    }
    false
}

proof fn lemma_ident_len_all(k: Seq<char>)
    requires
        forall|i: int| 0 <= i < k.len() ==> is_ident_char(#[trigger] k[i]),
    ensures
        ident_len(k) == k.len(),
    decreases k.len(),
{
    if k.len() > 0 {
        let d = k.drop_first();
        assert forall|i: int| 0 <= i < d.len() implies is_ident_char(#[trigger] d[i]) by {
            assert(d[i] == k[i + 1]);
        }
        lemma_ident_len_all(d);
    }
}

/// Text without placeholders comes out of interpolation unchanged, whatever
/// the context.
pub proof fn lemma_interpolate_no_placeholder(s: Seq<char>, ctx: Map<Seq<char>, Seq<char>>)
    requires
        !has_placeholder(s),
    ensures
        interpolated(s, ctx) == s,
    decreases s.len(),
{
    if s.len() > 0 {
        let d = s.drop_first();
        if s[0] == '$' && d.len() > 0 {
            assert(!is_ident_char(s[1]));
        }
        assert(!has_placeholder(d)) by {
            if has_placeholder(d) {
                let i = choose|i: int| 0 <= i < d.len() - 1 && #[trigger] d[i] == '$' && is_ident_char(d[i + 1]);
                assert(s[i + 1] == '$' && is_ident_char(s[i + 2]));
            }
        }
        lemma_interpolate_no_placeholder(d, ctx);
        assert(seq![s[0]] + d =~= s);
    }
}

/// A lone placeholder `$k` becomes the context's value for `k`, and stays
/// `$k` where the context has no value for `k`.
pub proof fn lemma_interpolate_placeholder(k: Seq<char>, ctx: Map<Seq<char>, Seq<char>>)
    requires
        k.len() > 0,
        forall|i: int| 0 <= i < k.len() ==> is_ident_char(#[trigger] k[i]),
    ensures
        interpolated(seq!['$'] + k, ctx) == if ctx.contains_key(k) {
            ctx[k]
        } else {
            seq!['$'] + k
        },
{
    let s = seq!['$'] + k;
    assert(s.drop_first() =~= k);
    lemma_ident_len_all(k);
    assert(s.subrange(1, k.len() + 1int) =~= k);
    assert(s.subrange(0, k.len() + 1int) =~= s);
    assert(s.subrange(k.len() + 1int, s.len() as int) =~= Seq::<char>::empty());
    assert(interpolated(Seq::<char>::empty(), ctx) == Seq::<char>::empty());
    if ctx.contains_key(k) {
        assert(ctx[k] + Seq::<char>::empty() =~= ctx[k]);
    } else {
        assert(s + Seq::<char>::empty() =~= s);
    }
}

} // verus!
