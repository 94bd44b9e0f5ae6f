//! Command arguments: the flag table and the split of a command line into
//! positional arguments and `-name value` flags.
use vstd::prelude::*;
use vstd::utf8::encode_utf8;

use crate::text::{ascii_lower, ascii_lowercase, lemma_utf8_ascii_head, lemma_utf8_empty, str_views};

verus! {

/// The flags of a command line: each name is mapped to the text after it.
/// A later entry for a name replaces an earlier one.
pub struct Flags<'a> {
    entries: Vec<(String, &'a str)>,
}

/// The table that a list of entries stands for: the last entry of a name
/// gives its value.
pub open spec fn entries_map(s: Seq<(String, &str)>) -> Map<Seq<char>, Seq<char>>
    decreases s.len(),
{
    if s.len() == 0 {
        Map::empty()
    } else {
        entries_map(s.drop_last()).insert(s.last().0@, s.last().1@)
    }
}

proof fn lemma_entries_lookup(s: Seq<(String, &str)>, k: Seq<char>, i: int)
    requires
        0 <= i < s.len(),
        s[i].0@ == k,
        forall|j: int| i < j < s.len() ==> (#[trigger] s[j]).0@ != k,
    ensures
        entries_map(s).contains_key(k),
        entries_map(s)[k] == s[i].1@,
    decreases s.len(),
{
    if i < s.len() - 1 {
        lemma_entries_lookup(s.drop_last(), k, i);
        assert(s[s.len() - 1].0@ != k);
    }
}

proof fn lemma_entries_absent(s: Seq<(String, &str)>, k: Seq<char>)
    requires
        forall|j: int| 0 <= j < s.len() ==> (#[trigger] s[j]).0@ != k,
    ensures
        !entries_map(s).contains_key(k),
    decreases s.len(),
{
    if s.len() > 0 {
        assert(s[s.len() - 1].0@ != k);
        lemma_entries_absent(s.drop_last(), k);
    }
}

impl<'a> View for Flags<'a> {
    type V = Map<Seq<char>, Seq<char>>;

    closed spec fn view(&self) -> Map<Seq<char>, Seq<char>> {
        entries_map(self.entries@)
    }
}

impl<'a> Flags<'a> {
    /// An empty table.
    pub fn new() -> (r: Flags<'a>)
        ensures
            r@ == Map::<Seq<char>, Seq<char>>::empty(),
    {
        Flags { entries: Vec::new() }
    }

    /// Sets the value of a flag, replacing any earlier one.
    pub fn insert(&mut self, name: String, value: &'a str)
        ensures
            final(self)@ == old(self)@.insert(name@, value@),
    {
        self.entries.push((name, value));
        proof {
            assert(self.entries@.drop_last() == old(self).entries@);
        }
    }

    /// The value of a flag, if it was given.
    pub fn get(&self, name: &str) -> (r: Option<&'a str>)
        ensures
            match r {
                Some(v) => self@.contains_key(name@) && self@[name@] == v@,
                None => !self@.contains_key(name@),
            },
    {
        let wanted = String::from_str(name);
        let mut i: usize = self.entries.len();
        while i > 0
            invariant
                i <= self.entries@.len(),
                wanted@ == name@,
                forall|j: int| i <= j < self.entries@.len() ==> (#[trigger] self.entries@[j]).0@
                    != name@,
            decreases i,
        {
            i = i - 1;
            if self.entries[i].0 == wanted {
                proof {
                    lemma_entries_lookup(self.entries@, name@, i as int);
                }
                return Some(self.entries[i].1);
            }
        }
        proof {
            lemma_entries_absent(self.entries@, name@);
        }
        None
    }
}

/// Whether a token names a flag: it starts with `-` and is at least two bytes
/// long in UTF-8.
pub open spec fn is_flag_token(t: Seq<char>) -> bool {
    t.len() > 0 && t[0] == '-' && encode_utf8(t).len() >= 2
}

/// The name of a flag token: the text after the `-`, in ASCII lower case.
pub open spec fn flag_name(t: Seq<char>) -> Seq<char> {
    ascii_lower(t.skip(1))
}

/// The split of the tokens from index `i` on, given the positional
/// arguments and flags read before `i`: a flag token with a token after it
/// sets the flag to that token and both are consumed; any other token is a
/// positional argument. A later setting of a flag replaces an earlier one.
pub open spec fn split_from(
    args: Seq<Seq<char>>,
    i: int,
    positional: Seq<Seq<char>>,
    flags: Map<Seq<char>, Seq<char>>,
) -> (Seq<Seq<char>>, Map<Seq<char>, Seq<char>>)
    decreases args.len() - i,
{
    if i >= args.len() {
        (positional, flags)
    } else if is_flag_token(args[i]) && i + 1 < args.len() {
        split_from(args, i + 2, positional, flags.insert(flag_name(args[i]), args[i + 1]))
    } else {
        split_from(args, i + 1, positional.push(args[i]), flags)
    }
}

/// The positional arguments of a command line: its tokens after the
/// command's own, without the flags and their values, in order.
pub open spec fn positional_args(args: Seq<Seq<char>>) -> Seq<Seq<char>> {
    split_from(args, 1, seq![], Map::empty()).0
}

/// The flags of a command line: each `-name value` pair after the command's
/// own token, the name in ASCII lower case.
pub open spec fn flag_args(args: Seq<Seq<char>>) -> Map<Seq<char>, Seq<char>> {
    split_from(args, 1, seq![], Map::empty()).1
}

fn flag_token(t: &str) -> (r: bool)
    ensures
        r == is_flag_token(t@),
{
    let n = t.unicode_len();
    if n > 0 && t.get_char(0) == '-' {
        proof {
            lemma_utf8_ascii_head(t@);
            lemma_utf8_empty(t@.drop_first());
        }
        n >= 2
    } else {
        false
    }
}

/// Splits the tokens of a command line into positional arguments and flags.
/// The first token, the command itself, is dropped; each `-name value` pair
/// becomes a flag.
pub fn parse_args<'a>(args: Vec<&'a str>) -> (r: (Vec<&'a str>, Flags<'a>))
    ensures
        str_views(r.0@) == positional_args(str_views(args@)),
        r.1@ == flag_args(str_views(args@)),
{
    let ghost views = str_views(args@);
    let n = args.len();
    let mut flags: Flags<'a> = Flags::new();
    let mut positional: Vec<&'a str> = Vec::new();
    let mut i: usize = 1;
    proof {
        assert(str_views(positional@) =~= Seq::<Seq<char>>::empty());
    }
    while i < n
        invariant
            n == args@.len(),
            views == str_views(args@),
            1 <= i,
            split_from(views, i as int, str_views(positional@), flags@) == split_from(
                views,
                1,
                seq![],
                Map::empty(),
            ),
        decreases n - i,
    {
        if flag_token(args[i]) && i + 1 < n {
            let rest = args[i].substring_char(1, args[i].unicode_len());
            let name = ascii_lowercase(rest);
            flags.insert(name, args[i + 1]);
            i = i + 2;
        } else {
            let ghost prev = positional@;
            positional.push(args[i]);
            proof {
                assert(str_views(positional@) =~= str_views(prev).push(views[i as int]));
            }
            i = i + 1;
        }
    }
    (positional, flags)
}

/// What a flag table holds after a flag is set: the new value for that
/// flag, and the old value for every other.
pub proof fn law_flags_read_after_write(
    table: Map<Seq<char>, Seq<char>>,
    name: Seq<char>,
    value: Seq<char>,
    other: Seq<char>,
)
    requires
        other != name,
    ensures
        table.insert(name, value).contains_key(name),
        table.insert(name, value)[name] == value,
        table.insert(name, value).contains_key(other) == table.contains_key(other),
        table.contains_key(other) ==> table.insert(name, value)[other] == table[other],
{
}

/// Whether no token after the command's own is a flag with a token after it.
pub open spec fn no_flags(args: Seq<Seq<char>>) -> bool {
    forall|j: int| 1 <= j < args.len() - 1 ==> !is_flag_token(#[trigger] args[j])
}

proof fn lemma_split_without_flags(
    args: Seq<Seq<char>>,
    i: int,
    positional: Seq<Seq<char>>,
    flags: Map<Seq<char>, Seq<char>>,
)
    requires
        1 <= i <= args.len(),
        no_flags(args),
    ensures
        split_from(args, i, positional, flags) == (positional + args.subrange(i, args.len() as int), flags),
    decreases args.len() - i,
{
    if i < args.len() {
        if i < args.len() - 1 {
            assert(!is_flag_token(args[i]));
        }
        lemma_split_without_flags(args, i + 1, positional.push(args[i]), flags);
        assert(positional.push(args[i]) + args.subrange(i + 1, args.len() as int) =~= positional
            + args.subrange(i, args.len() as int));
    } else {
        assert(positional + args.subrange(i, args.len() as int) =~= positional);
    }
}

/// A command line with no flags splits into all tokens but the command's
/// own, and no flags.
pub proof fn law_args_without_flags(args: Seq<Seq<char>>)
    requires
        args.len() >= 1,
        no_flags(args),
    ensures
        positional_args(args) == args.drop_first(),
        flag_args(args) == Map::<Seq<char>, Seq<char>>::empty(),
{
    lemma_split_without_flags(args, 1, seq![], Map::empty());
    assert(Seq::<Seq<char>>::empty() + args.subrange(1, args.len() as int) =~= args.drop_first());
}

/// Whether every entry of a flag table was read from the tokens: a flag
/// token after the command's own, with its value the token after it.
pub open spec fn flags_from_tokens(args: Seq<Seq<char>>, m: Map<Seq<char>, Seq<char>>) -> bool {
    forall|k: Seq<char>|
        #![trigger m.contains_key(k)]
        m.contains_key(k) ==> exists|j: int|
            1 <= j < args.len() - 1 && is_flag_token(#[trigger] args[j]) && flag_name(args[j]) == k
                && m[k] == args[j + 1]
}

/// Whether every positional argument is a token after the command's own.
pub open spec fn positional_from_tokens(args: Seq<Seq<char>>, p: Seq<Seq<char>>) -> bool {
    forall|x: int|
        0 <= x < p.len() ==> exists|j: int| 1 <= j < args.len() && (#[trigger] p[x]) == args[j]
}

proof fn lemma_split_from_tokens(
    args: Seq<Seq<char>>,
    i: int,
    positional: Seq<Seq<char>>,
    flags: Map<Seq<char>, Seq<char>>,
)
    requires
        1 <= i,
        flags_from_tokens(args, flags),
        positional_from_tokens(args, positional),
    ensures
        flags_from_tokens(args, split_from(args, i, positional, flags).1),
        positional_from_tokens(args, split_from(args, i, positional, flags).0),
    decreases args.len() - i,
{
    if i < args.len() {
        if is_flag_token(args[i]) && i + 1 < args.len() {
            let m = flags.insert(flag_name(args[i]), args[i + 1]);
            assert forall|k: Seq<char>| #![trigger m.contains_key(k)] m.contains_key(k) implies exists|
                jj: int,
            |
                1 <= jj < args.len() - 1 && is_flag_token(#[trigger] args[jj]) && flag_name(args[jj])
                    == k && m[k] == args[jj + 1] by {
                if k == flag_name(args[i]) {
                    assert(1 <= i < args.len() - 1 && is_flag_token(args[i]));
                } else {
                    assert(flags.contains_key(k));
                }
            }
            lemma_split_from_tokens(args, i + 2, positional, m);
        } else {
            let p = positional.push(args[i]);
            assert forall|x: int| 0 <= x < p.len() implies exists|j: int|
                1 <= j < args.len() && (#[trigger] p[x]) == args[j] by {
                if x < positional.len() {
                    assert(p[x] == positional[x]);
                } else {
                    assert(p[x] == args[i]);
                }
            }
            lemma_split_from_tokens(args, i + 1, p, flags);
        }
    }
}

/// Every flag that a split finds comes from a flag token after the
/// command's own that has a token after it: its name is that token's text
/// after the `-` in ASCII lower case, and its value the token after it; and
/// every positional argument is one of the tokens after the command's own.
pub proof fn law_split_comes_from_tokens(args: Seq<Seq<char>>)
    ensures
        flags_from_tokens(args, flag_args(args)),
        positional_from_tokens(args, positional_args(args)),
{
    lemma_split_from_tokens(args, 1, seq![], Map::empty());
}

/// A flag and its value are consumed together: a command line of the
/// command's token, one positional argument, a flag and its value, and a
/// second positional argument splits into the two positional arguments and
/// that one flag.
pub proof fn law_flag_and_value_consumed(
    command: Seq<char>,
    first: Seq<char>,
    flag: Seq<char>,
    value: Seq<char>,
    last: Seq<char>,
)
    requires
        !is_flag_token(first),
        is_flag_token(flag),
    ensures
        positional_args(seq![command, first, flag, value, last]) == seq![first, last],
        flag_args(seq![command, first, flag, value, last]) == Map::<Seq<char>, Seq<char>>::empty().insert(
            flag_name(flag),
            value,
        ),
{
    let args = seq![command, first, flag, value, last];
    reveal_with_fuel(split_from, 5);
    assert(seq![].push(first).push(last) =~= seq![first, last]);
}

} // verus!
