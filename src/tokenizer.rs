use vstd::prelude::*;

verus! {

/// The characters of each token.
pub open spec fn texts(ts: Seq<&str>) -> Seq<Seq<char>> {
    ts.map_values(|t: &str| t@)
}

/// The Unicode `White_Space` property, which `char::is_whitespace` tests.
pub open spec fn is_white_space(c: char) -> bool {
    let u = c as u32;
    ||| 0x09 <= u <= 0x0d
    ||| u == 0x20
    ||| u == 0x85
    ||| u == 0xa0
    ||| u == 0x1680
    ||| 0x2000 <= u <= 0x200a
    ||| u == 0x2028
    ||| u == 0x2029
    ||| u == 0x202f
    ||| u == 0x205f
    ||| u == 0x3000
}

/// Characters that separate tokens: white space and the comma.
pub open spec fn is_delimiter(c: char) -> bool {
    is_white_space(c) || c == ','
}

/// The length of the run of non-delimiters that starts the text.
pub open spec fn run_len(s: Seq<char>) -> nat
    decreases s.len(),
{
    if s.len() == 0 || is_delimiter(s[0]) {
        0
    } else {
        1 + run_len(s.drop_first())
    }
}

/// The tokens of a text: its maximal runs of non-delimiters, in order.
pub open spec fn tokens_of(s: Seq<char>) -> Seq<Seq<char>>
    decreases s.len(),
    via tokens_of_decreases
{
    if s.len() == 0 {
        seq![]
    } else if is_delimiter(s[0]) {
        tokens_of(s.drop_first())
    } else {
        seq![s.take(run_len(s) as int)] + tokens_of(s.skip(run_len(s) as int))
    }
}

proof fn lemma_run_len_bounds(s: Seq<char>)
    ensures
        run_len(s) <= s.len(),
        s.len() > 0 && !is_delimiter(s[0]) ==> run_len(s) >= 1,
    decreases s.len(),
{
    if s.len() > 0 && !is_delimiter(s[0]) {
        lemma_run_len_bounds(s.drop_first());
    }
}

#[via_fn]
proof fn tokens_of_decreases(s: Seq<char>) {
    lemma_run_len_bounds(s);
}

proof fn lemma_run_len_prefix(s: Seq<char>)
    ensures
        forall|j: int| 0 <= j < run_len(s) ==> !is_delimiter(#[trigger] s[j]),
    decreases s.len(),
{
    lemma_run_len_bounds(s);
    if s.len() > 0 && !is_delimiter(s[0]) {
        lemma_run_len_prefix(s.drop_first());
        assert forall|j: int| 0 <= j < run_len(s) implies !is_delimiter(#[trigger] s[j]) by {
            if j > 0 {
                assert(s[j] == s.drop_first()[j - 1]);
            }
        }
    }
}

/// Every token is non-empty and holds no delimiter.
pub proof fn lemma_tokens_well_formed(s: Seq<char>)
    ensures
        forall|k: int|
            0 <= k < tokens_of(s).len() ==> {
                let tok = #[trigger] tokens_of(s)[k];
                &&& tok.len() > 0
                &&& forall|j: int| 0 <= j < tok.len() ==> !is_delimiter(#[trigger] tok[j])
            },
    decreases s.len(),
{
    if s.len() == 0 {
    } else if is_delimiter(s[0]) {
        lemma_tokens_well_formed(s.drop_first());
        assert(tokens_of(s) == tokens_of(s.drop_first()));
    } else {
        let n = run_len(s) as int;
        lemma_run_len_bounds(s);
        lemma_run_len_prefix(s);
        lemma_tokens_well_formed(s.skip(n));
        let rest = tokens_of(s.skip(n));
        assert(tokens_of(s) == seq![s.take(n)] + rest);
        assert forall|k: int| 0 <= k < tokens_of(s).len() implies {
            let tok = #[trigger] tokens_of(s)[k];
            &&& tok.len() > 0
            &&& forall|j: int| 0 <= j < tok.len() ==> !is_delimiter(#[trigger] tok[j])
        } by {
            if k > 0 {
                assert(tokens_of(s)[k] == rest[k - 1]);
            } else {
                assert(tokens_of(s)[0] == s.take(n));
                assert forall|j: int| 0 <= j < n implies !is_delimiter(#[trigger] s.take(n)[j]) by {
                    assert(s.take(n)[j] == s[j]);
                }
            }
        }
    }
}

/// Whether a character separates tokens.
pub fn is_delimiter_char(c: char) -> (r: bool)
    ensures
        r == is_delimiter(c),
{
    let u = c as u32;
    (0x09 <= u && u <= 0x0d) || u == 0x20 || u == 0x85 || u == 0xa0 || u == 0x1680 || (0x2000
        <= u && u <= 0x200a) || u == 0x2028 || u == 0x2029 || u == 0x202f || u == 0x205f || u
        == 0x3000 || c == ','
}

/// The characters of a text, in order.
fn chars_of(s: &str) -> (r: Vec<char>)
    ensures
        r@ == s@,
{
    let mut out: Vec<char> = Vec::new();
    for c in it: s.chars()
        invariant
            it.seq() == s@,
            out@ == it.seq().take(it.index() as int),
    {
        out.push(c);
    }
    out
}

/// A delimiter at `i` adds no token.
proof fn lemma_skip_delimiter(s: Seq<char>, i: int)
    requires
        0 <= i < s.len(),
        is_delimiter(s[i]),
    ensures
        tokens_of(s.skip(i)) == tokens_of(s.skip(i + 1)),
{
    assert(s.skip(i).drop_first() =~= s.skip(i + 1));
}

/// A run of non-delimiters over `start..end` that ends at a delimiter or
/// at the end of the text has length `end - start`.
proof fn lemma_run(s: Seq<char>, start: int, end: int)
    requires
        0 <= start <= end <= s.len(),
        forall|k: int| start <= k < end ==> !is_delimiter(#[trigger] s[k]),
        end == s.len() || is_delimiter(s[end]),
    ensures
        run_len(s.skip(start)) == end - start,
    decreases end - start,
{
    if start < end {
        assert(s.skip(start).drop_first() =~= s.skip(start + 1));
        lemma_run(s, start + 1, end);
    }
}

/// Splits a text into tokens, one at a time, from left to right.
pub struct Tokenizer<'a> {
    input: &'a str,
    chars: Vec<char>,
    pos: usize,
}

impl<'a> Tokenizer<'a> {
    #[verifier::type_invariant]
    spec fn inv(self) -> bool {
        &&& self.chars@ == self.input@
        &&& self.pos <= self.chars@.len()
    }

    /// The text being split.
    pub closed spec fn text(self) -> Seq<char> {
        self.input@
    }

    /// The tokens that are still to come.
    pub closed spec fn remaining(self) -> Seq<Seq<char>> {
        tokens_of(self.chars@.skip(self.pos as int))
    }

    /// A tokenizer at the start of `input`.
    pub fn new(input: &'a str) -> (r: Tokenizer<'a>)
        ensures
            r.text() == input@,
            r.remaining() == tokens_of(input@),
    {
        let chars = chars_of(input);
        proof {
            assert(chars@.skip(0) =~= chars@);
        }
        Tokenizer { input, chars, pos: 0 }
    }

    /// The next token, or `None` once the text is used up.
    pub fn next(&mut self) -> (r: Option<&'a str>)
        ensures
            final(self).text() == old(self).text(),
            match r {
                None => old(self).remaining().len() == 0 && final(self).remaining().len() == 0,
                Some(t) => old(self).remaining().len() > 0 && t@ == old(self).remaining()[0]
                    && final(self).remaining() == old(self).remaining().drop_first(),
            },
    {
        proof {
            use_type_invariant(&*self);
        }
        let n = self.chars.len();
        let mut i = self.pos;
        while i < n && is_delimiter_char(self.chars[i])
            invariant
                self.pos <= i <= n,
                n == self.chars@.len(),
                tokens_of(self.chars@.skip(self.pos as int)) == tokens_of(self.chars@.skip(i as int)),
            decreases n - i,
        {
            proof {
                lemma_skip_delimiter(self.chars@, i as int);
            }
            i += 1;
        }
        if i == n {
            assert(self.chars@.skip(i as int).len() == 0);
            self.pos = i;
            return None;
        }
        let start = i;
        while i < n && !is_delimiter_char(self.chars[i])
            invariant
                start <= i <= n,
                n == self.chars@.len(),
                forall|k: int| start <= k < i ==> !is_delimiter(#[trigger] self.chars@[k]),
            decreases n - i,
        {
            i += 1;
        }
        let token = self.input.substring_char(start, i);
        proof {
            let s = self.chars@;
            lemma_run(s, start as int, i as int);
            assert(s.skip(start as int).take(i - start) =~= s.subrange(start as int, i as int));
            assert(s.skip(start as int).skip(i - start) =~= s.skip(i as int));
        }
        self.pos = i;
        Some(token)
    }
}

/// All the tokens of a text, in order.
pub fn tokenize<'a>(input: &'a str) -> (r: Vec<&'a str>)
    ensures
        texts(r@) == tokens_of(input@),
{
    let mut tokenizer = Tokenizer::new(input);
    let mut out: Vec<&'a str> = Vec::new();
    loop
        invariant
            texts(out@) + tokenizer.remaining() == tokens_of(input@),
        ensures
            texts(out@) == tokens_of(input@),
        decreases tokenizer.remaining().len(),
    {
        let ghost before = tokenizer.remaining();
        match tokenizer.next() {
            Some(t) => {
                proof {
                    assert(texts(out@.push(t)) =~= texts(out@).push(t@));
                    assert(before =~= seq![t@] + tokenizer.remaining());
                    assert(texts(out@).push(t@) + tokenizer.remaining() =~= texts(out@) + before);
                }
                out.push(t);
            },
            None => {
                assert(texts(out@) + tokenizer.remaining() =~= texts(out@));
                break;
            },
        }
    }
    out
}

} // verus!
