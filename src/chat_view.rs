//! Logic of the chat view: where the input focus is, name colors, and the
//! polls run in chat.
use vstd::prelude::*;
use vstd::string::StringSliceAdditionalSpecFns;

verus! {

/// Which input of the chat view has the focus, with the cursor position in
/// characters.
#[derive(Clone, Copy, Debug, PartialEq, Eq, Structural)]
pub enum FocusState {
    Idle,
    Message(usize),
    Search(usize),
}

impl FocusState {
    pub fn is_none(self) -> (r: bool)
        ensures
            r == (self is Idle),
    {
        match self {
            FocusState::Idle => true,
            _ => false,
        }
    }

    pub fn is_message(self) -> (r: bool)
        ensures
            r == (self is Message),
    {
        match self {
            FocusState::Message(_) => true,
            _ => false,
        }
    }

    pub fn is_search(self) -> (r: bool)
        ensures
            r == (self is Search),
    {
        match self {
            FocusState::Search(_) => true,
            _ => false,
        }
    }
}

/// A color given as red, green and blue.
#[derive(Clone, Copy, Debug, PartialEq, Eq, Structural)]
pub struct Rgb {
    pub r: u8,
    pub g: u8,
    pub b: u8,
}

/// The value of one hexadecimal digit, in either case.
pub open spec fn hex_value(b: u8) -> Option<u8> {
    if 0x30 <= b <= 0x39 {
        Some((b - 0x30) as u8)
    } else if 0x61 <= b <= 0x66 {
        Some((b - 0x61 + 10) as u8)
    } else if 0x41 <= b <= 0x46 {
        Some((b - 0x41 + 10) as u8)
    } else {
        None
    }
}

/// The byte written by the two hexadecimal digits at `i` and `i + 1`.
pub open spec fn hex_pair(s: Seq<u8>, i: int) -> Option<u8> {
    match (hex_value(s[i]), hex_value(s[i + 1])) {
        (Some(hi), Some(lo)) => Some((hi * 16 + lo) as u8),
        _ => None,
    }
}

/// The color written as `#rrggbb`.
pub open spec fn color_of(s: Seq<u8>) -> Option<Rgb> {
    if s.len() != 7 || s[0] != 0x23 {
        None
    } else {
        match (hex_pair(s, 1), hex_pair(s, 3), hex_pair(s, 5)) {
            (Some(r), Some(g), Some(b)) => Some(Rgb { r, g, b }),
            _ => None,
        }
    }
}

pub fn parse_hex(b: u8) -> (r: Option<u8>)
    ensures
        r == hex_value(b),
{
    if 0x30 <= b && b <= 0x39 {
        Some(b - 0x30)
    } else if 0x61 <= b && b <= 0x66 {
        Some(b - 0x61 + 10)
    } else if 0x41 <= b && b <= 0x46 {
        Some(b - 0x41 + 10)
    } else {
        None
    }
}

fn parse_hex_pair(s: &[u8], i: usize) -> (r: Option<u8>)
    requires
        i + 1 < s@.len(),
    ensures
        r == hex_pair(s@, i as int),
{
    match (parse_hex(s[i]), parse_hex(s[i + 1])) {
        (Some(hi), Some(lo)) => Some(hi * 16 + lo),
        _ => None,
    }
}

/// A user's chosen name color, given as `#rrggbb`; `None` when it is not in
/// that form (an empty string when the user chose none).
pub fn try_parse_color(color: &str) -> (r: Option<Rgb>)
    ensures
        r == color_of(color.spec_bytes()),
{
    let s = color.as_bytes();
    if s.len() != 7 || s[0] != 0x23 {
        return None;
    }
    match (parse_hex_pair(s, 1), parse_hex_pair(s, 3), parse_hex_pair(s, 5)) {
        (Some(r), Some(g), Some(b)) => Some(Rgb { r, g, b }),
        _ => None,
    }
}

/// The bytes of `s` up to its first space, or all of them.
pub open spec fn first_word(s: Seq<u8>) -> Seq<u8>
    decreases s.len(),
{
    if s.len() == 0 {
        s
    } else if s[0] == 0x20 {
        seq![]
    } else {
        seq![s[0]] + first_word(s.drop_first())
    }
}

pub open spec fn is_digit(b: u8) -> bool {
    0x30 <= b <= 0x39
}

/// The number written by decimal digits, most significant first.
pub open spec fn digits_value(s: Seq<u8>) -> nat
    decreases s.len(),
{
    if s.len() == 0 {
        0
    } else {
        digits_value(s.drop_last()) * 10 + (s.last() - 0x30) as nat
    }
}

/// The number written by a nonempty run of decimal digits, if it fits a
/// `usize`.
pub open spec fn digits_number(digits: Seq<u8>) -> Option<usize> {
    if digits.len() > 0 && (forall|i: int| 0 <= i < digits.len() ==> is_digit(#[trigger] digits[i]))
        && digits_value(digits) <= usize::MAX {
        Some(digits_value(digits) as usize)
    } else {
        None
    }
}

/// The number that a word reads as, as an unsigned integer is parsed: an
/// optional `+`, then at least one decimal digit; `None` for any other word
/// and for a number past the largest `usize`.
pub open spec fn word_number(w: Seq<u8>) -> Option<usize> {
    if w.len() > 0 && w[0] == 0x2b {
        digits_number(w.drop_first())
    } else {
        digits_number(w)
    }
}

proof fn lemma_digits_value_grows(s: Seq<u8>, n: int)
    requires
        0 <= n < s.len(),
        forall|i: int| 0 <= i < s.len() ==> is_digit(#[trigger] s[i]),
    ensures
        digits_value(s.subrange(0, n)) <= digits_value(s.subrange(0, n + 1)),
{
    let t = s.subrange(0, n + 1);
    assert(t.drop_last() =~= s.subrange(0, n));
    assert(is_digit(t.last()));
}

proof fn lemma_digits_value_monotone(s: Seq<u8>, n: int, m: int)
    requires
        0 <= n <= m <= s.len(),
        forall|i: int| 0 <= i < s.len() ==> is_digit(#[trigger] s[i]),
    ensures
        digits_value(s.subrange(0, n)) <= digits_value(s.subrange(0, m)),
    decreases m - n,
{
    if n < m {
        lemma_digits_value_grows(s, n);
        lemma_digits_value_monotone(s, n + 1, m);
    }
}

/// Reads the number that the first word of `text` writes.
pub fn parse_first_number(text: &str) -> (r: Option<usize>)
    ensures
        r == word_number(first_word(text.spec_bytes())),
{
    let s = text.as_bytes();
    let ghost bytes = s@;
    let mut end: usize = 0;
    while end < s.len() && s[end] != 0x20
        invariant
            end <= s@.len(),
            bytes == s@,
            forall|i: int| 0 <= i < end ==> s@[i] != 0x20,
        decreases s@.len() - end,
    {
        end += 1;
    }
    let ghost word = bytes.subrange(0, end as int);
    proof {
        lemma_first_word_prefix(bytes, end as int);
    }
    let mut start: usize = 0;
    if end > 0 && s[0] == 0x2b {
        start = 1;
    }
    let ghost digits = bytes.subrange(start as int, end as int);
    proof {
        assert(end > 0 ==> word[0] == bytes[0]);
        if start == 1 {
            assert(word.drop_first() =~= digits);
        } else {
            assert(word =~= digits);
        }
    }
    if start == end {
        return None;
    }
    let mut value: usize = 0;
    let mut i: usize = start;
    while i < end
        invariant
            start <= i <= end,
            end <= s@.len(),
            bytes == s@,
            digits == bytes.subrange(start as int, end as int),
            text.spec_bytes() == bytes,
            word_number(first_word(bytes)) == digits_number(digits),
            forall|j: int| start <= j < i ==> is_digit(#[trigger] bytes[j]),
            value == digits_value(bytes.subrange(start as int, i as int)),
        decreases end - i,
    {
        let b = s[i];
        if b < 0x30 || b > 0x39 {
            proof {
                assert(digits[i - start] == b);
                assert(!is_digit(digits[i - start]));
            }
            return None;
        }
        let ghost next = bytes.subrange(start as int, i + 1);
        proof {
            assert(next.drop_last() =~= bytes.subrange(start as int, i as int));
            assert(next.last() == b);
        }
        let d = (b - 0x30) as usize;
        if value > (usize::MAX - d) / 10 {
            proof {
                assert(value * 10 + d > usize::MAX) by (nonlinear_arith)
                    requires
                        value > (usize::MAX - d) / 10,
                        d <= 9,
                ;
                if forall|k: int| 0 <= k < digits.len() ==> is_digit(#[trigger] digits[k]) {
                    lemma_digits_value_monotone(digits, i + 1 - start, digits.len() as int);
                    assert(digits.subrange(0, i + 1 - start) =~= next);
                    assert(digits.subrange(0, digits.len() as int) =~= digits);
                }
            }
            return None;
        }
        assert(value * 10 + d <= usize::MAX) by (nonlinear_arith)
            requires
                value <= (usize::MAX - d) / 10,
                d <= 9,
        ;
        value = value * 10 + d;
        i += 1;
    }
    proof {
        assert(bytes.subrange(start as int, end as int) =~= digits);
    }
    Some(value)
}

proof fn lemma_first_word_prefix(s: Seq<u8>, end: int)
    requires
        0 <= end <= s.len(),
        forall|i: int| 0 <= i < end ==> s[i] != 0x20,
        end == s.len() || s[end] == 0x20,
    ensures
        first_word(s) == s.subrange(0, end),
    decreases s.len(),
{
    if s.len() > 0 {
        if end == 0 {
            assert(s.subrange(0, 0) =~= Seq::<u8>::empty());
        } else {
            let t = s.drop_first();
            assert forall|i: int| 0 <= i < end - 1 implies t[i] != 0x20 by {
                assert(t[i] == s[i + 1]);
            }
            lemma_first_word_prefix(t, end - 1);
            assert(seq![s[0]] + t.subrange(0, end - 1) =~= s.subrange(0, end));
        }
    } else {
        assert(s.subrange(0, 0) =~= s);
    }
}


/// Whether no two ballots are from the same user.
pub open spec fn voters_unique(v: Seq<(String, usize)>) -> bool {
    forall|i: int, j: int| 0 <= i < j < v.len() ==> (#[trigger] v[i]).0@ != (#[trigger] v[j]).0@
}

/// How many ballots choose option `i`.
pub open spec fn tally(v: Seq<(String, usize)>, i: int) -> nat
    decreases v.len(),
{
    if v.len() == 0 {
        0
    } else {
        tally(v.drop_last(), i) + if v.last().1 == i {
            1nat
        } else {
            0nat
        }
    }
}

/// The largest of the first `n` counts, 0 for none.
pub open spec fn max_count(counts: Seq<nat>, n: int) -> nat
    decreases n,
{
    if n <= 0 {
        0
    } else {
        let m = max_count(counts, n - 1);
        if counts[n - 1] > m {
            counts[n - 1]
        } else {
            m
        }
    }
}

/// Whether one of the first `n` options has `max` votes.
pub open spec fn any_winner(counts: Seq<nat>, max: nat, n: int) -> bool {
    exists|i: int| 0 <= i < n && counts[i] == max
}

/// The first `n` options that have `max` votes, each after a space, the
/// second and later ones also after " -".
pub open spec fn winners_text(options: Seq<Seq<char>>, counts: Seq<nat>, max: nat, n: int) -> Seq<
    char,
>
    decreases n,
{
    if n <= 0 {
        seq![]
    } else {
        let before = winners_text(options, counts, max, n - 1);
        if counts[n - 1] == max {
            before + (if any_winner(counts, max, n - 1) {
                " -"@
            } else {
                seq![]
            }) + " "@ + options[n - 1]
        } else {
            before
        }
    }
}

pub open spec fn digit_char(d: nat) -> char {
    if d == 0 {
        '0'
    } else if d == 1 {
        '1'
    } else if d == 2 {
        '2'
    } else if d == 3 {
        '3'
    } else if d == 4 {
        '4'
    } else if d == 5 {
        '5'
    } else if d == 6 {
        '6'
    } else if d == 7 {
        '7'
    } else if d == 8 {
        '8'
    } else {
        '9'
    }
}

/// `n` in decimal digits.
pub open spec fn decimal(n: nat) -> Seq<char>
    decreases n,
{
    if n < 10 {
        seq![digit_char(n)]
    } else {
        decimal(n / 10).push(digit_char(n % 10))
    }
}

/// The message that ends a poll: the top vote count and every option that
/// has it, or that nobody voted.
pub open spec fn poll_message(options: Seq<Seq<char>>, counts: Seq<nat>) -> Seq<char> {
    let max = max_count(counts, options.len() as int);
    if max == 0 {
        "Ergebnis: Keine Stimmen"@
    } else {
        "Ergebnis["@ + decimal(max) + "]:"@ + winners_text(options, counts, max, options.len() as int)
    }
}

fn digit_str(d: usize) -> (r: &'static str)
    requires
        d < 10,
    ensures
        r@ == seq![digit_char(d as nat)],
{
    proof {
        reveal_strlit("0");
        reveal_strlit("1");
        reveal_strlit("2");
        reveal_strlit("3");
        reveal_strlit("4");
        reveal_strlit("5");
        reveal_strlit("6");
        reveal_strlit("7");
        reveal_strlit("8");
        reveal_strlit("9");
    }
    if d == 0 {
        "0"
    } else if d == 1 {
        "1"
    } else if d == 2 {
        "2"
    } else if d == 3 {
        "3"
    } else if d == 4 {
        "4"
    } else if d == 5 {
        "5"
    } else if d == 6 {
        "6"
    } else if d == 7 {
        "7"
    } else if d == 8 {
        "8"
    } else {
        "9"
    }
}

/// `n` written in decimal.
pub fn decimal_string(n: usize) -> (r: String)
    ensures
        r@ == decimal(n as nat),
    decreases n,
{
    if n < 10 {
        String::from_str(digit_str(n))
    } else {
        let mut s = decimal_string(n / 10);
        s.append(digit_str(n % 10));
        s
    }
}

/// A poll in chat: its options, numbered from 0, and one ballot per user,
/// the number that the user's last message started with.
pub struct Poll {
    pub options: Vec<String>,
    pub votes: Vec<(String, usize)>,
}

impl Poll {
    pub open spec fn wf(&self) -> bool {
        voters_unique(self.votes@)
    }

    pub open spec fn counts(&self) -> Seq<nat> {
        Seq::new(self.options@.len(), |i: int| tally(self.votes@, i))
    }

    pub open spec fn option_names(&self) -> Seq<Seq<char>> {
        Seq::new(self.options@.len(), |i: int| self.options@[i]@)
    }

    pub fn new(options: Vec<String>) -> (r: Self)
        ensures
            r.wf(),
            r.options@ == options@,
            r.votes@.len() == 0,
    {
        Poll { options, votes: Vec::new() }
    }

    /// Records a user's message: when its first word is a number, that is the
    /// user's ballot, in place of any earlier one; other messages change
    /// nothing.
    pub fn vote(&mut self, user_id: &str, text: &str)
        requires
            old(self).wf(),
        ensures
            final(self).wf(),
            final(self).options == old(self).options,
            match word_number(first_word(text.spec_bytes())) {
                None => final(self).votes@ == old(self).votes@,
                Some(n) => if exists|k: int|
                    0 <= k < old(self).votes@.len() && (#[trigger] old(self).votes@[k]).0@
                        == user_id@ {
                    exists|k: int|
                        0 <= k < old(self).votes@.len() && (#[trigger] old(self).votes@[k]).0@
                            == user_id@ && final(self).votes@ == old(self).votes@.update(
                            k,
                            (old(self).votes@[k].0, n),
                        )
                } else {
                    &&& final(self).votes@.len() == old(self).votes@.len() + 1
                    &&& final(self).votes@.drop_last() == old(self).votes@
                    &&& final(self).votes@.last().0@ == user_id@
                    &&& final(self).votes@.last().1 == n
                },
            },
    {
        let choice = match parse_first_number(text) {
            Some(n) => n,
            None => return ,
        };
        let user = String::from_str(user_id);
        let n = self.votes.len();
        let mut k: usize = 0;
        while k < n
            invariant
                n == self.votes@.len(),
                k <= n,
                user@ == user_id@,
                word_number(first_word(text.spec_bytes())) == Some(choice),
                self.votes@ == old(self).votes@,
                voters_unique(self.votes@),
                self.options == old(self).options,
                forall|j: int| 0 <= j < k ==> (#[trigger] self.votes@[j]).0@ != user_id@,
            decreases n - k,
        {
            if self.votes[k].0 == user {
                let ghost before = self.votes@;
                self.votes[k].1 = choice;
                proof {
                    assert(self.votes@ =~= before.update(k as int, (before[k as int].0, choice)));
                    assert forall|i: int, j: int|
                        0 <= i < j < self.votes@.len() implies (#[trigger] self.votes@[i]).0@ != (
                    #[trigger] self.votes@[j]).0@ by {
                        assert(before[i].0@ != before[j].0@);
                    }
                    assert(old(self).votes@[k as int].0@ == user_id@);
                    assert(self.votes@ == old(self).votes@.update(
                        k as int,
                        (old(self).votes@[k as int].0, choice),
                    ));
                }
                return ;
            }
            k += 1;
        }
        let ghost before = self.votes@;
        self.votes.push((user, choice));
        proof {
            assert(self.votes@.drop_last() =~= before);
            assert forall|i: int, j: int|
                0 <= i < j < self.votes@.len() implies (#[trigger] self.votes@[i]).0@ != (
            #[trigger] self.votes@[j]).0@ by {
                if j < before.len() {
                    assert(before[i].0@ != before[j].0@);
                } else {
                    assert(self.votes@[i] == before[i]);
                }
            }
        }
    }

    /// How many ballots each option has, in the order of the options.
    /// Ballots for a number with no option are not counted.
    pub fn counts_of(&self) -> (r: Vec<usize>)
        ensures
            r@.len() == self.options@.len(),
            forall|i: int| 0 <= i < r@.len() ==> r@[i] == #[trigger] self.counts()[i],
    {
        let n = self.options.len();
        let mut counts: Vec<usize> = Vec::new();
        let mut i: usize = 0;
        while i < n
            invariant
                i <= n,
                counts@.len() == i,
                forall|j: int| 0 <= j < i ==> counts@[j] == 0,
            decreases n - i,
        {
            counts.push(0);
            i += 1;
        }
        let m = self.votes.len();
        let mut k: usize = 0;
        while k < m
            invariant
                m == self.votes@.len(),
                n == self.options@.len(),
                k <= m,
                counts@.len() == n,
                forall|j: int|
                    0 <= j < n ==> counts@[j] == tally(self.votes@.subrange(0, k as int), j)
                        && counts@[j] <= k,
            decreases m - k,
        {
            let c = self.votes[k].1;
            let ghost prefix = self.votes@.subrange(0, k + 1);
            proof {
                assert(prefix.drop_last() =~= self.votes@.subrange(0, k as int));
                assert(prefix.last() == self.votes@[k as int]);
            }
            if c < n {
                let v = counts[c];
                counts.set(c, v + 1);
            }
            k += 1;
        }
        proof {
            assert(self.votes@.subrange(0, m as int) =~= self.votes@);
        }
        counts
    }

    /// The message that ends the poll.
    pub fn result(&self) -> (r: String)
        ensures
            r@ == poll_message(self.option_names(), self.counts()),
    {
        let counts = self.counts_of();
        let n = counts.len();
        let ghost cs = self.counts();
        let mut max: usize = 0;
        let mut i: usize = 0;
        while i < n
            invariant
                n == counts@.len(),
                n == cs.len(),
                i <= n,
                forall|j: int| 0 <= j < n ==> counts@[j] == #[trigger] cs[j],
                max == max_count(cs, i as int),
            decreases n - i,
        {
            if counts[i] > max {
                max = counts[i];
            }
            i += 1;
        }
        proof {
            reveal_strlit("Ergebnis: Keine Stimmen");
        }
        if max == 0 {
            return String::from_str("Ergebnis: Keine Stimmen");
        }
        let mut message = String::from_str("Ergebnis[");
        message.append(decimal_string(max).as_str());
        message.append("]:");
        let ghost head = message@;
        let ghost names = self.option_names();
        let mut first = true;
        let mut i: usize = 0;
        while i < n
            invariant
                n == counts@.len(),
                n == cs.len(),
                n == self.options@.len(),
                names == self.option_names(),
                i <= n,
                forall|j: int| 0 <= j < n ==> counts@[j] == #[trigger] cs[j],
                message@ == head + winners_text(names, cs, max as nat, i as int),
                first == !any_winner(cs, max as nat, i as int),
            decreases n - i,
        {
            let ghost before = message@;
            if counts[i] == max {
                if !first {
                    message.append(" -");
                }
                message.append(" ");
                message.append(self.options[i].as_str());
                proof {
                    assert(names[i as int] == self.options@[i as int]@);
                    assert(message@ =~= head + winners_text(names, cs, max as nat, i + 1));
                    assert(cs[i as int] == max);
                }
                first = false;
            }
            proof {
                if counts[i as int] != max {
                    assert(any_winner(cs, max as nat, i + 1) == any_winner(cs, max as nat, i as int)) by {
                        if any_winner(cs, max as nat, i + 1) {
                            let w = choose|w: int| 0 <= w < i + 1 && cs[w] == max;
                            assert(w < i);
                        }
                    }
                }
            }
            i += 1;
        }
        message
    }
}

} // verus!
