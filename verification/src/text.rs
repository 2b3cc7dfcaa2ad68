//! Text building blocks: decimal rendering, quoting, ordering and message assembly.

use vstd::prelude::*;

verus! {

/// The decimal digit `d` as text.
pub open spec fn digit(d: nat) -> Seq<char> {
    if d == 0 {
        "0"@
    } else if d == 1 {
        "1"@
    } else if d == 2 {
        "2"@
    } else if d == 3 {
        "3"@
    } else if d == 4 {
        "4"@
    } else if d == 5 {
        "5"@
    } else if d == 6 {
        "6"@
    } else if d == 7 {
        "7"@
    } else if d == 8 {
        "8"@
    } else {
        "9"@
    }
}

/// The number `n` in decimal, without leading zeros.
pub open spec fn decimal(n: nat) -> Seq<char>
    decreases n,
{
    if n < 10 {
        digit(n)
    } else {
        decimal(n / 10) + digit(n % 10)
    }
}

/// What `{:?}` renders for a string: double quotes around the text with the escapes of
/// `str::escape_debug`.
pub uninterp spec fn quoted(s: Seq<char>) -> Seq<char>;

/// What `{:?}` renders for an optional string.
pub open spec fn quoted_option(s: Option<Seq<char>>) -> Seq<char> {
    match s {
        Some(text) => "Some("@ + quoted(text) + ")"@,
        None => "None"@,
    }
}

/// What `{:?}` renders for an optional number.
pub open spec fn number_option(n: Option<usize>) -> Seq<char> {
    match n {
        Some(number) => "Some("@ + decimal(number as nat) + ")"@,
        None => "None"@,
    }
}

/// The numbers of `v`, in order, separated by a comma and a space.
pub open spec fn comma_separated(v: Seq<usize>) -> Seq<char>
    decreases v.len(),
{
    if v.len() == 0 {
        Seq::empty()
    } else if v.len() == 1 {
        decimal(v[0] as nat)
    } else {
        comma_separated(v.drop_last()) + ", "@ + decimal(v.last() as nat)
    }
}

/// What `{:?}` renders for a list of numbers.
pub open spec fn number_list(v: Seq<usize>) -> Seq<char> {
    "["@ + comma_separated(v) + "]"@
}

/// What `{:?}` renders for an optional list of numbers.
pub open spec fn number_list_option(v: Option<Seq<usize>>) -> Seq<char> {
    match v {
        Some(list) => "Some("@ + number_list(list) + ")"@,
        None => "None"@,
    }
}

/// Lexicographic order by code point, which is the order of strings by their bytes.
pub open spec fn text_before(a: Seq<char>, b: Seq<char>) -> bool
    decreases a.len(),
{
    if b.len() == 0 {
        false
    } else if a.len() == 0 {
        true
    } else if a[0] == b[0] {
        text_before(a.drop_first(), b.drop_first())
    } else {
        (a[0] as int) < (b[0] as int)
    }
}

pub proof fn lemma_text_before_irreflexive(a: Seq<char>)
    ensures
        !text_before(a, a),
    decreases a.len(),
{
    if a.len() > 0 {
        lemma_text_before_irreflexive(a.drop_first());
    }
}

pub proof fn lemma_text_before_transitive(a: Seq<char>, b: Seq<char>, c: Seq<char>)
    requires
        text_before(a, b),
        text_before(b, c),
    ensures
        text_before(a, c),
    decreases a.len(),
{
    if a.len() > 0 && a[0] == b[0] && b[0] == c[0] {
        lemma_text_before_transitive(a.drop_first(), b.drop_first(), c.drop_first());
    }
}

pub proof fn lemma_text_before_total(a: Seq<char>, b: Seq<char>)
    ensures
        a == b || text_before(a, b) || text_before(b, a),
    decreases a.len(),
{
    if a.len() > 0 && b.len() > 0 && a[0] == b[0] {
        lemma_text_before_total(a.drop_first(), b.drop_first());
        if a.drop_first() == b.drop_first() {
            assert(a =~= seq![a[0]] + a.drop_first());
            assert(b =~= seq![b[0]] + b.drop_first());
        }
    } else if a.len() == 0 && b.len() == 0 {
        assert(a =~= b);
    }
}

/// Equality of texts.
pub fn same(a: &str, b: &str) -> (r: bool)
    ensures
        r == (a@ == b@),
{
    let left: String = a.to_owned();
    let right: String = b.to_owned();
    left == right
}

/// Equality of optional texts.
pub fn same_option(a: &Option<String>, b: &Option<String>) -> (r: bool)
    ensures
        r == (a.deep_view() == b.deep_view()),
{
    match (a, b) {
        (Some(left), Some(right)) => *left == *right,
        (None, None) => true,
        _ => false,
    }
}

/// The characters of `s`.
pub fn characters(s: &str) -> (r: Vec<char>)
    ensures
        r@ == s@,
{
    let mut r: Vec<char> = Vec::new();
    for c in it: s.chars()
        invariant
            it.seq() == s@,
            r@ == s@.take(it.index() as int),
    {
        r.push(c);
        assert(r@ =~= s@.take(it.index() + 1));
    }
    assert(s@.take(s@.len() as int) =~= s@);
    r
}

/// What follows a prefix.
pub open spec fn after_prefix(s: Seq<char>, prefix: Seq<char>) -> Option<Seq<char>> {
    if prefix.is_prefix_of(s) {
        Some(s.skip(prefix.len() as int))
    } else {
        None
    }
}

/// What stands before and after the last `c`.
pub open spec fn split_at_last(s: Seq<char>, c: char) -> Option<(Seq<char>, Seq<char>)>
    decreases s.len(),
{
    if s.len() == 0 {
        None
    } else if s.last() == c {
        Some((s.drop_last(), Seq::empty()))
    } else {
        match split_at_last(s.drop_last(), c) {
            None => None,
            Some((left, right)) => Some((left, right.push(s.last()))),
        }
    }
}

proof fn lemma_split_at(s: Seq<char>, c: char, i: int)
    requires
        0 <= i < s.len(),
        s[i] == c,
        forall|j: int| i < j < s.len() ==> s[j] != c,
    ensures
        split_at_last(s, c) == Some((s.take(i), s.skip(i + 1))),
    decreases s.len(),
{
    if i == s.len() - 1 {
        assert(s.drop_last() =~= s.take(i));
        assert(s.skip(i + 1) =~= Seq::empty());
    } else {
        let front = s.drop_last();
        assert(s[s.len() - 1] != c);
        lemma_split_at(front, c, i);
        assert(front.take(i) =~= s.take(i));
        assert(front.skip(i + 1).push(s.last()) =~= s.skip(i + 1));
    }
}

proof fn lemma_no_split(s: Seq<char>, c: char)
    requires
        forall|j: int| 0 <= j < s.len() ==> s[j] != c,
    ensures
        split_at_last(s, c) is None,
    decreases s.len(),
{
    if s.len() > 0 {
        assert(s[s.len() - 1] != c);
        lemma_no_split(s.drop_last(), c);
    }
}

/// Whether `part` stands in `s`.
pub open spec fn holds_text(s: Seq<char>, part: Seq<char>) -> bool {
    exists|i: int| 0 <= i <= s.len() - part.len() && #[trigger] s.subrange(i, i + part.len()) == part
}

/// What follows a prefix.
pub fn strip_prefix<'a>(s: &'a str, prefix: &str) -> (r: Option<&'a str>)
    ensures
        r.deep_view() == after_prefix(s@, prefix@),
{
    let all: Vec<char> = characters(s);
    let head: Vec<char> = characters(prefix);
    if head.len() > all.len() {
        return None;
    }
    let mut i: usize = 0;
    while i < head.len()
        invariant
            i <= head.len() <= all.len(),
            all@ == s@,
            head@ == prefix@,
            forall|j: int| 0 <= j < i ==> s@[j] == prefix@[j],
        decreases head.len() - i,
    {
        if all[i] != head[i] {
            assert(s@[i as int] != prefix@[i as int]);
            assert(!prefix@.is_prefix_of(s@));
            return None;
        }
        i += 1;
    }
    assert(prefix@ =~= s@.subrange(0, prefix@.len() as int));
    let rest: &'a str = s.substring_char(head.len(), all.len());
    assert(rest@ =~= s@.skip(prefix@.len() as int));
    Some(rest)
}

/// What stands before and after the last `c`.
pub fn rsplit_once<'a>(s: &'a str, c: char) -> (r: Option<(&'a str, &'a str)>)
    ensures
        r.deep_view() == split_at_last(s@, c),
{
    let all: Vec<char> = characters(s);
    let mut i: usize = all.len();
    while i > 0
        invariant
            i <= all.len(),
            all@ == s@,
            forall|j: int| i <= j < all.len() ==> s@[j] != c,
        decreases i,
    {
        i -= 1;
        if all[i] == c {
            assert(s@[i as int] == c);
            proof {
                lemma_split_at(s@, c, i as int);
            }
            let left: &'a str = s.substring_char(0, i);
            let right: &'a str = s.substring_char(i + 1, all.len());
            assert(left@ =~= s@.take(i as int));
            assert(right@ =~= s@.skip(i + 1));
            return Some((left, right));
        }
    }
    proof {
        lemma_no_split(s@, c);
    }
    None
}

/// Whether `part` stands in `s`.
pub fn contains(s: &str, part: &str) -> (r: bool)
    ensures
        r == holds_text(s@, part@),
{
    let all: Vec<char> = characters(s);
    let wanted: Vec<char> = characters(part);
    if wanted.len() > all.len() {
        return false;
    }
    let last: usize = all.len() - wanted.len();
    let mut i: usize = 0;
    while i <= last
        invariant
            all@ == s@,
            wanted@ == part@,
            last == all.len() - wanted.len(),
            i <= last + 1,
            forall|j: int|
                0 <= j < i ==> (#[trigger] s@.subrange(j, j + part@.len())) != part@,
        decreases last + 1 - i,
    {
        let mut k: usize = 0;
        while k < wanted.len() && all[i + k] == wanted[k]
            invariant
                all@ == s@,
                wanted@ == part@,
                last == all.len() - wanted.len(),
                i <= last,
                k <= wanted.len(),
                forall|j: int| 0 <= j < k ==> s@[i + j] == part@[j],
            decreases wanted.len() - k,
        {
            k += 1;
        }
        let ghost here = s@.subrange(i as int, i + part@.len());
        if k == wanted.len() {
            assert(here =~= part@);
            return true;
        }
        assert(here[k as int] != part@[k as int]);
        if i == last {
            return false;
        }
        i += 1;
    }
    false
}

/// Whether `a` comes before `b` in lexicographic order.
pub fn is_before(a: &str, b: &str) -> (r: bool)
    ensures
        r == text_before(a@, b@),
{
    let left: Vec<char> = characters(a);
    let right: Vec<char> = characters(b);
    let mut i: usize = 0;
    assert(a@.skip(0) =~= a@);
    assert(b@.skip(0) =~= b@);
    while i < left.len() && i < right.len() && left[i] == right[i]
        invariant
            left@ == a@,
            right@ == b@,
            i <= left.len(),
            i <= right.len(),
            text_before(a@, b@) == text_before(a@.skip(i as int), b@.skip(i as int)),
        decreases left.len() - i,
    {
        assert(a@.skip(i as int).drop_first() =~= a@.skip(i + 1));
        assert(b@.skip(i as int).drop_first() =~= b@.skip(i + 1));
        i += 1;
    }
    if i >= right.len() {
        false
    } else if i >= left.len() {
        true
    } else {
        left[i] < right[i]
    }
}

/// `{:?}` of a string.
///
/// Trusted: `format!` with `{:?}` applied to a `str` (its `Debug` impl) is a function of the text
/// alone, named `quoted` here. Which characters it escapes, and how, is left unsaid.
#[verifier::external_body]
pub(crate) fn quote(s: &str) -> (r: String)
    ensures
        r@ == quoted(s@),
{
    format!("{:?}", s)
}

fn digit_text(d: u128) -> (r: &'static str)
    requires
        d < 10,
    ensures
        r@ == digit(d as nat),
{
    if d == 0 {
        "0"
    } else if d == 1 {
        "1"
    } else if d == 2 {
        "2"
    } else if d == 3 {
        "3"
    } else if d == 4 {
        "4"
    } else if d == 5 {
        "5"
    } else if d == 6 {
        "6"
    } else if d == 7 {
        "7"
    } else if d == 8 {
        "8"
    } else {
        "9"
    }
}

/// `n` in decimal.
pub fn decimal_text(n: u128) -> (r: String)
    ensures
        r@ == decimal(n as nat),
    decreases n,
{
    if n < 10 {
        String::from_str(digit_text(n))
    } else {
        let mut r: String = decimal_text(n / 10);
        r.append(digit_text(n % 10));
        r
    }
}

/// A message under construction.
pub struct Message {
    text: String,
}

impl View for Message {
    type V = Seq<char>;

    closed spec fn view(&self) -> Seq<char> {
        self.text@
    }
}

impl Message {
    /// A message that starts with `s`.
    pub fn new(s: &str) -> (r: Message)
        ensures
            r@ == s@,
    {
        Message { text: String::from_str(s) }
    }

    /// Appends `s` as it stands.
    pub fn text(self, s: &str) -> (r: Message)
        ensures
            r@ == self@ + s@,
    {
        let mut text: String = self.text;
        text.append(s);
        Message { text }
    }

    /// Appends `n` in decimal.
    pub fn number(self, n: usize) -> (r: Message)
        ensures
            r@ == self@ + decimal(n as nat),
    {
        let digits: String = decimal_text(n as u128);
        self.text(digits.as_str())
    }

    /// Appends `n` in decimal.
    pub fn number_u64(self, n: u64) -> (r: Message)
        ensures
            r@ == self@ + decimal(n as nat),
    {
        let digits: String = decimal_text(n as u128);
        self.text(digits.as_str())
    }

    /// Appends `a + b` in decimal.
    pub fn sum(self, a: usize, b: usize) -> (r: Message)
        ensures
            r@ == self@ + decimal((a + b) as nat),
    {
        let digits: String = decimal_text(a as u128 + b as u128);
        self.text(digits.as_str())
    }

    /// Appends `s` in quotes.
    pub fn quoted(self, s: &str) -> (r: Message)
        ensures
            r@ == self@ + quoted(s@),
    {
        let q: String = quote(s);
        self.text(q.as_str())
    }

    /// Appends `Some(..)` around the quoted text, or `None`.
    pub fn quoted_option(self, s: &Option<String>) -> (r: Message)
        ensures
            r@ == self@ + quoted_option(s.deep_view()),
    {
        match s {
            Some(text) => {
                let part: Message = Message::new("Some(").quoted(text.as_str()).text(")");
                self.text(part.text.as_str())
            },
            None => self.text("None"),
        }
    }

    /// Appends `Some(..)` around the number, or `None`.
    pub fn number_option(self, n: Option<usize>) -> (r: Message)
        ensures
            r@ == self@ + number_option(n),
    {
        match n {
            Some(number) => {
                let part: Message = Message::new("Some(").number(number).text(")");
                self.text(part.text.as_str())
            },
            None => self.text("None"),
        }
    }

    /// Appends the numbers of `v` in square brackets.
    pub fn number_list(self, v: &Vec<usize>) -> (r: Message)
        ensures
            r@ == self@ + number_list(v@),
    {
        let mut list: Message = Message::new("");
        let mut i: usize = 0;
        proof {
            reveal_strlit("");
            assert(list@ =~= comma_separated(v@.take(0)));
        }
        while i < v.len()
            invariant
                i <= v.len(),
                list@ == comma_separated(v@.take(i as int)),
            decreases v.len() - i,
        {
            proof {
                let t = v@.take(i + 1);
                assert(t.drop_last() =~= v@.take(i as int));
                assert(t.last() == v@[i as int]);
            }
            if i > 0 {
                list = list.text(", ").number(v[i]);
            } else {
                let d: String = decimal_text(v[i] as u128);
                list = Message { text: d };
            }
            i += 1;
        }
        assert(v@.take(v@.len() as int) =~= v@);
        let part: Message = Message::new("[").text(list.text.as_str()).text("]");
        self.text(part.text.as_str())
    }

    /// Appends `Some(..)` around the list, or `None`.
    pub fn number_list_option(self, v: &Option<Vec<usize>>) -> (r: Message)
        ensures
            r@ == self@ + number_list_option(v.deep_view()),
    {
        match v {
            Some(list) => {
                assert(list.deep_view() =~= list@);
                let part: Message = Message::new("Some(").number_list(list).text(")");
                self.text(part.text.as_str())
            },
            None => self.text("None"),
        }
    }

    /// The finished text.
    pub fn done(self) -> (r: String)
        ensures
            r@ == self@,
    {
        self.text
    }
}

} // verus!
