//! Process configuration, read from an explicitly passed set of named values.
use vstd::prelude::*;

use crate::clock::TIME_FORMAT;
use crate::text::{chars_of, decimal, u64_to_text};

verus! {

/// A request timeout in whole seconds.
pub struct Timeout {
    sec: u64,
}

impl Timeout {
    pub closed spec fn secs(&self) -> u64 {
        self.sec
    }

    pub fn new(sec: u64) -> (r: Timeout)
        ensures
            r.secs() == sec,
    {
        Timeout { sec }
    }

    pub fn seconds(&self) -> (r: u64)
        ensures
            r == self.secs(),
    {
        self.sec
    }
}

/// The value of the first entry named `name`.
pub open spec fn var_value(vars: Seq<(Seq<char>, Seq<char>)>, name: Seq<char>) -> Option<Seq<char>>
    decreases vars.len(),
{
    if vars.len() == 0 {
        None
    } else if vars[0].0 == name {
        Some(vars[0].1)
    } else {
        var_value(vars.drop_first(), name)
    }
}

pub open spec fn digit_value(c: char) -> Option<nat> {
    if '0' <= c && c <= '9' {
        Some((c as nat - '0' as nat) as nat)
    } else {
        None
    }
}

/// The number the digits spell, if all are decimal digits.
pub open spec fn digits_value(s: Seq<char>) -> Option<nat>
    decreases s.len(),
{
    if s.len() == 0 {
        Some(0)
    } else {
        match (digits_value(s.drop_last()), digit_value(s.last())) {
            (Some(v), Some(d)) => Some(v * 10 + d),
            _ => None,
        }
    }
}

/// An unsigned integer in decimal, as `str::parse::<u64>` reads it: an optional `+`, then at
/// least one digit, and no more than `u64::MAX`.
pub open spec fn parse_u64(s: Seq<char>) -> Option<u64> {
    let body = if s.len() > 0 && s[0] == '+' {
        s.drop_first()
    } else {
        s
    };
    if body.len() == 0 {
        None
    } else {
        match digits_value(body) {
            Some(v) => if v <= u64::MAX {
                Some(v as u64)
            } else {
                None
            },
            None => None,
        }
    }
}

/// Reads an unsigned decimal integer.
pub fn parse_unsigned(text: &str) -> (r: Option<u64>)
    ensures
        r == parse_u64(text@),
{
    let cs = chars_of(text);
    let n = cs.len();
    let start: usize = if n > 0 && cs[0] == '+' {
        1
    } else {
        0
    };
    let ghost body = if text@.len() > 0 && text@[0] == '+' {
        text@.drop_first()
    } else {
        text@
    };
    assert(body =~= text@.subrange(start as int, n as int));
    if start == n {
        return None;
    }
    let mut v: u64 = 0;
    let mut i: usize = start;
    while i < n
        invariant
            cs@ == text@,
            n == text@.len(),
            start <= i <= n,
            body =~= text@.subrange(start as int, n as int),
            body == (if text@.len() > 0 && text@[0] == '+' {
                text@.drop_first()
            } else {
                text@
            }),
            digits_value(text@.subrange(start as int, i as int)) == Some(v as nat),
        decreases n - i,
    {
        let c = cs[i];
        let ghost pre = text@.subrange(start as int, i as int);
        let ghost post = text@.subrange(start as int, i + 1);
        assert(post.drop_last() =~= pre);
        if c < '0' || c > '9' {
            proof {
                assert(text@.subrange(start as int, n as int)[(i - start) as int] == c);
                lemma_no_digits_after(text@.subrange(start as int, n as int), (i - start) as int);
                assert(digits_value(body) is None);
                assert(body.len() > 0);
            }
            return None;
        }
        let d: u64 = (c as u32 - '0' as u32) as u64;
        if v > (u64::MAX - d) / 10 {
            proof {
                assert(text@.subrange(start as int, n as int).subrange(0, (i + 1 - start) as int)
                    =~= post);
                assert(post.last() == c);
                assert(digit_value(c) == Some(d as nat));
                assert(digits_value(post) == Some(v as nat * 10 + d as nat));
                lemma_too_large_after(text@.subrange(start as int, n as int), (i + 1 - start) as int);
                assert(body.len() > 0);
                assert(v as nat * 10 + d as nat > u64::MAX) by (nonlinear_arith)
                    requires
                        v > (u64::MAX - d) / 10,
                        d <= 9,
                ;
            }
            return None;
        }
        assert(v as nat * 10 + d as nat <= u64::MAX) by (nonlinear_arith)
            requires
                v <= (u64::MAX - d) / 10,
                d <= 9,
        ;
        proof {
            assert(post.last() == c);
            assert(digit_value(c) == Some(d as nat));
        }
        v = v * 10 + d;
        i = i + 1;
    }
    Some(v)
}

/// A non-digit at position `k` spoils the whole number.
proof fn lemma_no_digits_after(s: Seq<char>, k: int)
    requires
        0 <= k < s.len(),
        digit_value(s[k]) is None,
    ensures
        digits_value(s) is None,
    decreases s.len(),
{
    if k < s.len() - 1 {
        lemma_no_digits_after(s.drop_last(), k);
    }
}

/// The digits grow the value: the number of a prefix never exceeds that of the whole.
proof fn lemma_too_large_after(s: Seq<char>, k: int)
    requires
        0 < k <= s.len(),
    ensures
        digits_value(s) matches Some(v) ==> v >= digits_value(s.subrange(0, k))->0,
    decreases s.len(),
{
    if k < s.len() {
        assert(s.drop_last().subrange(0, k) =~= s.subrange(0, k));
        lemma_too_large_after(s.drop_last(), k);
    } else {
        assert(s.subrange(0, k) =~= s);
    }
}

/// The unsigned integer configured under `name`, or `default_value` when there is none; `None`
/// when the configured text is not an unsigned integer.
pub open spec fn number_setting(
    vars: Seq<(Seq<char>, Seq<char>)>,
    name: Seq<char>,
    default_value: u64,
) -> Option<u64> {
    match var_value(vars, name) {
        Some(v) => parse_u64(v),
        None => parse_u64(decimal(default_value as nat)),
    }
}

/// Configuration values, looked up by name.
pub struct Config {
    vars: Vec<(String, String)>,
}

impl Config {
    pub closed spec fn entries(&self) -> Seq<(Seq<char>, Seq<char>)> {
        self.vars@.map_values(|p: (String, String)| (p.0@, p.1@))
    }

    /// A configuration holding the given named values (the first of equal names wins).
    pub fn new(vars: Vec<(String, String)>) -> (r: Config)
        ensures
            r.entries() == vars@.map_values(|p: (String, String)| (p.0@, p.1@)),
    {
        Config { vars }
    }

    /// The value named `name`, if there is one.
    pub fn lookup(&self, name: &str) -> (r: Option<String>)
        ensures
            match r {
                Some(v) => var_value(self.entries(), name@) == Some(v@),
                None => var_value(self.entries(), name@) is None,
            },
    {
        let key = String::from_str(name);
        let mut i: usize = 0;
        assert(self.entries().subrange(0, self.entries().len() as int) =~= self.entries());
        while i < self.vars.len()
            invariant
                key@ == name@,
                i <= self.vars@.len(),
                var_value(self.entries(), name@) == var_value(self.entries().subrange(i as int, self.entries().len() as int), name@),
            decreases self.vars@.len() - i,
        {
            let ghost rest = self.entries().subrange(i as int, self.entries().len() as int);
            assert(rest.drop_first() =~= self.entries().subrange(i + 1, self.entries().len() as int));
            if self.vars[i].0 == key {
                return Some(self.vars[i].1.clone());
            }
            i = i + 1;
        }
        None
    }

    /// The value named `name`, or `default_value` when there is none.
    pub fn read_text_with_default(&self, name: &str, default_value: &str) -> (r: String)
        ensures
            r@ == match var_value(self.entries(), name@) {
                Some(v) => v,
                None => default_value@,
            },
    {
        match self.lookup(name) {
            Some(v) => v,
            None => String::from_str(default_value),
        }
    }

    /// The unsigned integer named `name`, or `default_value` when there is none; `None` when the
    /// value is not an unsigned integer.
    pub fn read_var_with_default(&self, name: &str, default_value: u64) -> (r: Option<u64>)
        ensures
            r == number_setting(self.entries(), name@, default_value),
    {
        let text = match self.lookup(name) {
            Some(v) => v,
            None => u64_to_text(default_value),
        };
        parse_unsigned(text.as_str())
    }

    /// The base address of the messaging service.
    pub fn telegram_base_url(&self) -> (r: String)
        ensures
            r@ == match var_value(self.entries(), "TELEGRAM_BASE_URL"@) {
                Some(v) => v,
                None => "https://api.telegram.org/bot"@,
            },
    {
        self.read_text_with_default("TELEGRAM_BASE_URL", "https://api.telegram.org/bot")
    }

    /// The bot token, which must be configured.
    pub fn telegram_bot_token(&self) -> (r: Option<String>)
        ensures
            match r {
                Some(v) => var_value(self.entries(), "TELEGRAM_BOT_TOKEN"@) == Some(v@),
                None => var_value(self.entries(), "TELEGRAM_BOT_TOKEN"@) is None,
            },
    {
        self.lookup("TELEGRAM_BOT_TOKEN")
    }

    /// The number of worker threads (three unless configured).
    pub fn telegram_pool_thread_number(&self) -> (r: Option<u64>)
        ensures
            r == number_setting(self.entries(), "TELEGRAM_POOL_THREAD_NUMBER"@, 3),
    {
        self.read_var_with_default("TELEGRAM_POOL_THREAD_NUMBER", 3)
    }

    /// The request timeout (five seconds unless configured).
    pub fn request_timeout_in_seconds(&self) -> (r: Option<Timeout>)
        ensures
            match r {
                Some(t) => number_setting(self.entries(), "REQUEST_TIMEOUT"@, 5) == Some(t.secs()),
                None => number_setting(self.entries(), "REQUEST_TIMEOUT"@, 5) is None,
            },
    {
        match self.read_var_with_default("REQUEST_TIMEOUT", 5) {
            Some(s) => Some(Timeout::new(s)),
            None => None,
        }
    }

    /// The text format of timestamps.
    pub fn time_format() -> (r: &'static str)
        ensures
            r@ == TIME_FORMAT@,
    {
        TIME_FORMAT
    }
}

} // verus!
