//! The text commands of a participant: `end`, or a hero id, a keyword and ids, separated by
//! spaces (`2 play 0 3`, `3 pass`, `2 pitch 1`, `3 block 4 5`).
use vstd::prelude::*;

verus! {

/// A participant's command.
#[derive(Debug, PartialEq, Eq)]
pub enum EventType {
    PlayCard { hero: u32, card: u32, target: Option<u32> },
    PassPriority { hero: u32 },
    PitchCard { hero: u32, card: u32 },
    DeclareBlocks { hero: u32, blocks: Vec<u32> },
    End,
}

pub enum EventView {
    PlayCard { hero: u32, card: u32, target: Option<u32> },
    PassPriority { hero: u32 },
    PitchCard { hero: u32, card: u32 },
    DeclareBlocks { hero: u32, blocks: Seq<u32> },
    End,
}

impl View for EventType {
    type V = EventView;

    open spec fn view(&self) -> EventView {
        match self {
            EventType::PlayCard { hero, card, target } => EventView::PlayCard {
                hero: *hero,
                card: *card,
                target: *target,
            },
            EventType::PassPriority { hero } => EventView::PassPriority { hero: *hero },
            EventType::PitchCard { hero, card } => EventView::PitchCard { hero: *hero, card: *card },
            EventType::DeclareBlocks { hero, blocks } => EventView::DeclareBlocks {
                hero: *hero,
                blocks: blocks@,
            },
            EventType::End => EventView::End,
        }
    }
}

#[derive(Clone, Copy, Debug, PartialEq, Eq, Structural)]
pub enum ParseError {
    HeroNotInt,
    NoEvent,
    NoCard,
    CardNotInt,
    TargetNotInt,
    NoMatch,
}

/// Unicode's White_Space characters.
pub open spec fn white(c: char) -> bool {
    ('\u{9}' <= c && c <= '\u{d}') || c == ' ' || c == '\u{85}' || c == '\u{a0}' || c == '\u{1680}'
        || ('\u{2000}' <= c && c <= '\u{200a}') || c == '\u{2028}' || c == '\u{2029}' || c
        == '\u{202f}' || c == '\u{205f}' || c == '\u{3000}'
}

pub open spec fn trim_start(s: Seq<char>) -> Seq<char>
    decreases s.len(),
{
    if s.len() > 0 && white(s[0]) {
        trim_start(s.drop_first())
    } else {
        s
    }
}

pub open spec fn trim_end(s: Seq<char>) -> Seq<char>
    decreases s.len(),
{
    if s.len() > 0 && white(s.last()) {
        trim_end(s.drop_last())
    } else {
        s
    }
}

/// `s` without leading and trailing white space.
pub open spec fn trimmed(s: Seq<char>) -> Seq<char> {
    trim_end(trim_start(s))
}

/// The lowercase form of one character, one or more characters long.
pub uninterp spec fn lower_chars(c: char) -> Seq<char>;

/// The lowercase form of `s`, character by character.
pub open spec fn lowered(s: Seq<char>) -> Seq<char>
    decreases s.len(),
{
    if s.len() == 0 {
        Seq::empty()
    } else {
        lowered(s.drop_last()) + lower_chars(s.last())
    }
}

/// The pieces of `s` between single spaces, empty pieces included.
pub open spec fn words(s: Seq<char>) -> Seq<Seq<char>>
    decreases s.len(),
{
    if s.len() == 0 {
        seq![Seq::empty()]
    } else {
        let w = words(s.drop_last());
        if s.last() == ' ' {
            w.push(Seq::empty())
        } else {
            w.update(w.len() - 1, w.last().push(s.last()))
        }
    }
}

pub open spec fn is_digit(c: char) -> bool {
    '0' <= c && c <= '9'
}

pub open spec fn digits_value(s: Seq<char>) -> int
    decreases s.len(),
{
    if s.len() == 0 {
        0
    } else {
        digits_value(s.drop_last()) * 10 + (s.last() as int - '0' as int)
    }
}

/// `s` without a leading `+`.
pub open spec fn unsigned_part(s: Seq<char>) -> Seq<char> {
    if s.len() > 0 && s[0] == '+' {
        s.drop_first()
    } else {
        s
    }
}

/// The number `s` writes in decimal, with an optional leading `+`, where it fits in a `u32`.
pub open spec fn u32_of(s: Seq<char>) -> Option<u32> {
    let d = unsigned_part(s);
    if d.len() > 0 && (forall|i: int| 0 <= i < d.len() ==> is_digit(#[trigger] d[i]))
        && digits_value(d) <= u32::MAX {
        Some(digits_value(d) as u32)
    } else {
        None
    }
}

/// The numbers that all of `ws` write, or `None` where one does not.
pub open spec fn all_u32(ws: Seq<Seq<char>>) -> Option<Seq<u32>>
    decreases ws.len(),
{
    if ws.len() == 0 {
        Some(Seq::empty())
    } else {
        match (all_u32(ws.drop_last()), u32_of(ws.last())) {
            (Some(ns), Some(n)) => Some(ns.push(n)),
            _ => None,
        }
    }
}

/// What a command asks for, from its words `ws`, the lowercase form of the whole line, and the
/// lowercase second word without surrounding white space.
pub open spec fn command_from(ws: Seq<Seq<char>>, line_lower: Seq<char>, kw: Seq<char>) -> Result<EventView, ParseError> {
    if line_lower == "end"@ {
        Ok(EventView::End)
    } else if ws.len() == 0 || u32_of(ws[0]) is None {
        Err(ParseError::HeroNotInt)
    } else if ws.len() < 2 {
        Err(ParseError::NoEvent)
    } else {
        let hero = u32_of(ws[0])->0;
        if kw == "play"@ {
            if ws.len() < 3 {
                Err(ParseError::NoCard)
            } else if u32_of(ws[2]) is None {
                Err(ParseError::CardNotInt)
            } else if ws.len() > 3 && u32_of(ws[3]) is None {
                Err(ParseError::TargetNotInt)
            } else {
                Ok(
                    EventView::PlayCard {
                        hero,
                        card: u32_of(ws[2])->0,
                        target: if ws.len() > 3 {
                            u32_of(ws[3])
                        } else {
                            None
                        },
                    },
                )
            }
        } else if kw == "pass"@ {
            Ok(EventView::PassPriority { hero })
        } else if kw == "pitch"@ {
            if ws.len() < 3 {
                Err(ParseError::NoCard)
            } else if u32_of(ws[2]) is None {
                Err(ParseError::CardNotInt)
            } else {
                Ok(EventView::PitchCard { hero, card: u32_of(ws[2])->0 })
            }
        } else if kw == "block"@ {
            match all_u32(ws.subrange(2, ws.len() as int)) {
                Some(blocks) => Ok(EventView::DeclareBlocks { hero, blocks }),
                None => Err(ParseError::CardNotInt),
            }
        } else {
            Err(ParseError::NoMatch)
        }
    }
}

/// What the command `line` asks for: the line is trimmed and split at single spaces; `end`
/// in any case ends, else the first word is the hero and the second, in any case, the keyword.
pub open spec fn command_of(line: Seq<char>) -> Result<EventView, ParseError> {
    let t = trimmed(line);
    let ws = words(t);
    command_from(ws, lowered(t), if ws.len() > 1 { trimmed(lowered(ws[1])) } else { Seq::empty() })
}

pub open spec fn result_view(r: Result<EventType, ParseError>) -> Result<EventView, ParseError> {
    match r {
        Ok(e) => Ok(e@),
        Err(e) => Err(e),
    }
}

/// Relies on `char::to_lowercase`: the lowercase mapping of one character, which depends on
/// the character alone.
#[verifier::external_body]
fn lower_char(c: char) -> (r: Vec<char>)
    ensures
        r@ == lower_chars(c),
{
    c.to_lowercase().collect()
}

fn chars_of(line: &str) -> (r: Vec<char>)
    ensures
        r@ == line@,
{
    let mut r: Vec<char> = Vec::new();
    for c in it: line.chars()
        invariant
            r@ == it.history@,
    {
        r.push(c);
    }
    r
}

fn is_white(c: char) -> (r: bool)
    ensures
        r == white(c),
{
    ('\u{9}' <= c && c <= '\u{d}') || c == ' ' || c == '\u{85}' || c == '\u{a0}' || c == '\u{1680}'
        || ('\u{2000}' <= c && c <= '\u{200a}') || c == '\u{2028}' || c == '\u{2029}' || c
        == '\u{202f}' || c == '\u{205f}' || c == '\u{3000}'
}

fn slice_of(s: &Vec<char>, lo: usize, hi: usize) -> (r: Vec<char>)
    requires
        lo <= hi <= s@.len(),
    ensures
        r@ == s@.subrange(lo as int, hi as int),
{
    let mut r: Vec<char> = Vec::new();
    let mut i: usize = lo;
    while i < hi
        invariant
            lo <= i <= hi,
            hi <= s@.len(),
            r@ == s@.subrange(lo as int, i as int),
        decreases hi - i,
    {
        r.push(s[i]);
        i = i + 1;
        assert(r@ =~= s@.subrange(lo as int, i as int));
    }
    r
}

proof fn lemma_trim_start(s: Seq<char>, i: int)
    requires
        0 <= i <= s.len(),
        forall|j: int| 0 <= j < i ==> white(s[j]),
    ensures
        trim_start(s) == trim_start(s.subrange(i, s.len() as int)),
    decreases i,
{
    if i > 0 {
        assert(white(s[0]));
        assert forall|j: int| 0 <= j < i - 1 implies white(s.drop_first()[j]) by {
            assert(s.drop_first()[j] == s[j + 1]);
        }
        assert(s.drop_first().subrange(i - 1, s.drop_first().len() as int) =~= s.subrange(i, s.len() as int));
        lemma_trim_start(s.drop_first(), i - 1);
    } else {
        assert(s.subrange(0, s.len() as int) =~= s);
    }
}

proof fn lemma_trim_end(s: Seq<char>, k: int)
    requires
        0 <= k <= s.len(),
        forall|j: int| k <= j < s.len() ==> white(s[j]),
    ensures
        trim_end(s) == trim_end(s.subrange(0, k)),
    decreases s.len() - k,
{
    if k < s.len() {
        assert(s.drop_last().subrange(0, k) =~= s.subrange(0, k));
        lemma_trim_end(s.drop_last(), k);
    } else {
        assert(s.subrange(0, k) =~= s);
    }
}

fn trim(s: &Vec<char>) -> (r: Vec<char>)
    ensures
        r@ == trimmed(s@),
{
    let mut i: usize = 0;
    while i < s.len() && is_white(s[i])
        invariant
            0 <= i <= s@.len(),
            forall|j: int| 0 <= j < i ==> white(s@[j]),
        decreases s@.len() - i,
    {
        i = i + 1;
    }
    proof {
        lemma_trim_start(s@, i as int);
        let rest = s@.subrange(i as int, s@.len() as int);
        if rest.len() > 0 {
            assert(rest[0] == s@[i as int]);
        }
    }
    let mut k: usize = s.len();
    while k > i && is_white(s[k - 1])
        invariant
            i <= k <= s@.len(),
            forall|j: int| k <= j < s@.len() ==> white(s@[j]),
        decreases k - i,
    {
        k = k - 1;
    }
    proof {
        let rest = s@.subrange(i as int, s@.len() as int);
        assert forall|j: int| k - i <= j < rest.len() implies white(rest[j]) by {
            assert(rest[j] == s@[j + i]);
        }
        lemma_trim_end(rest, k - i);
        assert(rest.subrange(0, k - i) =~= s@.subrange(i as int, k as int));
        let kept = s@.subrange(i as int, k as int);
        if kept.len() > 0 {
            assert(kept.last() == s@[k - 1]);
        }
    }
    slice_of(s, i, k)
}

fn lower(s: &Vec<char>) -> (r: Vec<char>)
    ensures
        r@ == lowered(s@),
{
    let mut r: Vec<char> = Vec::new();
    let mut i: usize = 0;
    while i < s.len()
        invariant
            0 <= i <= s@.len(),
            r@ == lowered(s@.subrange(0, i as int)),
        decreases s@.len() - i,
    {
        let mut l = lower_char(s[i]);
        r.append(&mut l);
        assert(s@.subrange(0, i + 1).drop_last() =~= s@.subrange(0, i as int));
        i = i + 1;
    }
    assert(s@.subrange(0, s@.len() as int) =~= s@);
    r
}

fn same_chars(a: &Vec<char>, b: &Vec<char>) -> (r: bool)
    ensures
        r == (a@ == b@),
{
    if a.len() != b.len() {
        return false;
    }
    let mut i: usize = 0;
    while i < a.len()
        invariant
            0 <= i <= a@.len(),
            a@.len() == b@.len(),
            forall|j: int| 0 <= j < i ==> a@[j] == b@[j],
        decreases a@.len() - i,
    {
        if a[i] != b[i] {
            return false;
        }
        i = i + 1;
    }
    assert(a@ =~= b@);
    true
}

fn split_words(s: &Vec<char>) -> (r: Vec<Vec<char>>)
    ensures
        r@.len() == words(s@).len(),
        forall|j: int| 0 <= j < r@.len() ==> (#[trigger] r@[j])@ == words(s@)[j],
{
    let mut r: Vec<Vec<char>> = Vec::new();
    let mut cur: Vec<char> = Vec::new();
    let mut i: usize = 0;
    while i < s.len()
        invariant
            0 <= i <= s@.len(),
            r@.len() + 1 == words(s@.subrange(0, i as int)).len(),
            forall|j: int| 0 <= j < r@.len() ==> (#[trigger] r@[j])@ == words(s@.subrange(0, i as int))[j],
            cur@ == words(s@.subrange(0, i as int)).last(),
        decreases s@.len() - i,
    {
        let c = s[i];
        assert(s@.subrange(0, i + 1).drop_last() =~= s@.subrange(0, i as int));
        if c == ' ' {
            let mut done: Vec<char> = Vec::new();
            std::mem::swap(&mut done, &mut cur);
            r.push(done);
        } else {
            cur.push(c);
        }
        i = i + 1;
    }
    assert(s@.subrange(0, s@.len() as int) =~= s@);
    r.push(cur);
    r
}

proof fn lemma_digits_grow(s: Seq<char>, i: int, j: int)
    requires
        0 <= i <= j <= s.len(),
        forall|k: int| 0 <= k < s.len() ==> is_digit(#[trigger] s[k]),
    ensures
        digits_value(s.subrange(0, j)) >= digits_value(s.subrange(0, i)),
    decreases j - i,
{
    if i < j {
        lemma_digits_grow(s, i, j - 1);
        assert(s.subrange(0, j).drop_last() =~= s.subrange(0, j - 1));
        assert(is_digit(s[j - 1]));
        lemma_digits_nonneg(s.subrange(0, j - 1));
    }
}

proof fn lemma_digits_nonneg(s: Seq<char>)
    requires
        forall|k: int| 0 <= k < s.len() ==> is_digit(#[trigger] s[k]),
    ensures
        digits_value(s) >= 0,
    decreases s.len(),
{
    if s.len() > 0 {
        assert(is_digit(s[s.len() - 1]));
        lemma_digits_nonneg(s.drop_last());
    }
}

/// The number a word writes in decimal.
pub fn parse_u32(w: &Vec<char>) -> (r: Option<u32>)
    ensures
        r == u32_of(w@),
{
    let start: usize = if w.len() > 0 && w[0] == '+' {
        1
    } else {
        0
    };
    let ghost d = w@.subrange(start as int, w@.len() as int);
    proof {
        if start == 1 {
            assert(d =~= w@.drop_first());
        } else {
            assert(d =~= w@);
        }
        assert(d == unsigned_part(w@));
    }
    if start == w.len() {
        return None;
    }
    let mut i: usize = start;
    let mut v: u64 = 0;
    while i < w.len()
        invariant
            start <= i <= w@.len(),
            d == w@.subrange(start as int, w@.len() as int),
            d == unsigned_part(w@),
            forall|k: int| 0 <= k < i - start ==> is_digit(#[trigger] d[k]),
            v == digits_value(d.subrange(0, i - start)),
            v <= u32::MAX,
        decreases w@.len() - i,
    {
        let c = w[i];
        assert(d[i - start] == c);
        if !('0' <= c && c <= '9') {
            assert(!is_digit(d[i - start]));
            assert(!(forall|k: int| 0 <= k < d.len() ==> is_digit(#[trigger] d[k])));
            return None;
        }
        assert(d.subrange(0, i - start + 1).drop_last() =~= d.subrange(0, i - start));
        assert(d.subrange(0, i - start + 1).last() == c);
        let nv = v * 10 + (c as u64 - '0' as u64);
        assert(nv == digits_value(d.subrange(0, i - start + 1)));
        if nv > u32::MAX as u64 {
            proof {
                if forall|k: int| 0 <= k < d.len() ==> is_digit(#[trigger] d[k]) {
                    lemma_digits_grow(d, i - start + 1, d.len() as int);
                    assert(d.subrange(0, d.len() as int) =~= d);
                    assert(digits_value(d) > u32::MAX);
                }
            }
            return None;
        }
        v = nv;
        i = i + 1;
    }
    assert(d.subrange(0, d.len() as int) =~= d);
    Some(v as u32)
}

fn parse_all(ws: &Vec<Vec<char>>, from: usize) -> (r: Option<Vec<u32>>)
    requires
        from <= ws@.len(),
    ensures
        match r {
            Some(ns) => all_u32(ws@.subrange(from as int, ws@.len() as int).map_values(|w: Vec<char>| w@)) == Some(ns@),
            None => all_u32(ws@.subrange(from as int, ws@.len() as int).map_values(|w: Vec<char>| w@)) is None,
        },
{
    let mut ns: Vec<u32> = Vec::new();
    let mut i: usize = from;
    while i < ws.len()
        invariant
            from <= i <= ws@.len(),
            all_u32(ws@.subrange(from as int, i as int).map_values(|w: Vec<char>| w@)) == Some(ns@),
        decreases ws@.len() - i,
    {
        let ghost pre = ws@.subrange(from as int, i as int).map_values(|w: Vec<char>| w@);
        let ghost next = ws@.subrange(from as int, i + 1).map_values(|w: Vec<char>| w@);
        assert(next.drop_last() =~= pre);
        assert(next.last() == ws@[i as int]@);
        match parse_u32(&ws[i]) {
            Some(n) => ns.push(n),
            None => {
                proof {
                    lemma_all_u32_none(ws@.subrange(from as int, ws@.len() as int).map_values(|w: Vec<char>| w@), i - from);
                    assert(ws@.subrange(from as int, ws@.len() as int).map_values(|w: Vec<char>| w@).subrange(0, i - from + 1) =~= next);
                }
                return None;
            },
        }
        i = i + 1;
    }
    Some(ns)
}

proof fn lemma_all_u32_none(ws: Seq<Seq<char>>, k: int)
    requires
        0 <= k < ws.len(),
        u32_of(ws[k]) is None,
    ensures
        all_u32(ws) is None,
    decreases ws.len(),
{
    if k < ws.len() - 1 {
        assert(ws.drop_last()[k] == ws[k]);
        lemma_all_u32_none(ws.drop_last(), k);
    }
}

/// Reads a command from its words, the lowercase form of the whole line, and the keyword: the
/// lowercase second word without surrounding white space.
pub fn command_from_words(ws: &Vec<Vec<char>>, line_lower: &Vec<char>, keyword: &Vec<char>) -> (r: Result<EventType, ParseError>)
    ensures
        result_view(r) == command_from(ws@.map_values(|w: Vec<char>| w@), line_lower@, keyword@),
{
    let ghost sw = ws@.map_values(|w: Vec<char>| w@);
    if same_chars(line_lower, &chars_of("end")) {
        return Ok(EventType::End);
    }
    if ws.len() == 0 {
        return Err(ParseError::HeroNotInt);
    }
    assert(sw[0] == ws@[0]@);
    let hero = match parse_u32(&ws[0]) {
        Some(h) => h,
        None => {
            return Err(ParseError::HeroNotInt);
        },
    };
    if ws.len() < 2 {
        return Err(ParseError::NoEvent);
    }
    if same_chars(keyword, &chars_of("play")) {
        if ws.len() < 3 {
            return Err(ParseError::NoCard);
        }
        assert(sw[2] == ws@[2]@);
        let card = match parse_u32(&ws[2]) {
            Some(c) => c,
            None => {
                return Err(ParseError::CardNotInt);
            },
        };
        let target = if ws.len() > 3 {
            assert(sw[3] == ws@[3]@);
            match parse_u32(&ws[3]) {
                Some(t) => Some(t),
                None => {
                    return Err(ParseError::TargetNotInt);
                },
            }
        } else {
            None
        };
        Ok(EventType::PlayCard { hero, card, target })
    } else if same_chars(keyword, &chars_of("pass")) {
        Ok(EventType::PassPriority { hero })
    } else if same_chars(keyword, &chars_of("pitch")) {
        if ws.len() < 3 {
            return Err(ParseError::NoCard);
        }
        assert(sw[2] == ws@[2]@);
        match parse_u32(&ws[2]) {
            Some(card) => Ok(EventType::PitchCard { hero, card }),
            None => Err(ParseError::CardNotInt),
        }
    } else if same_chars(keyword, &chars_of("block")) {
        assert(ws@.subrange(2, ws@.len() as int).map_values(|w: Vec<char>| w@) =~= sw.subrange(2, sw.len() as int));
        match parse_all(ws, 2) {
            Some(blocks) => Ok(EventType::DeclareBlocks { hero, blocks }),
            None => Err(ParseError::CardNotInt),
        }
    } else {
        Err(ParseError::NoMatch)
    }
}

/// Reads a participant's command from a line of text.
pub fn parse_command(line: &str) -> (r: Result<EventType, ParseError>)
    ensures
        result_view(r) == command_of(line@),
{
    let cs = chars_of(line);
    let t = trim(&cs);
    let ws = split_words(&t);
    proof {
        lemma_words_nonempty(t@);
        assert(ws@.map_values(|w: Vec<char>| w@) =~= words(t@));
    }
    let keyword = if ws.len() > 1 {
        trim(&lower(&ws[1]))
    } else {
        Vec::new()
    };
    proof {
        if ws@.len() == 1 {
            assert(keyword@ =~= Seq::<char>::empty());
        }
    }
    command_from_words(&ws, &lower(&t), &keyword)
}

proof fn lemma_words_nonempty(s: Seq<char>)
    ensures
        words(s).len() >= 1,
    decreases s.len(),
{
    if s.len() > 0 {
        lemma_words_nonempty(s.drop_last());
    }
}

} // verus!
