use vstd::prelude::*;

use crate::config::{normalize_env_value, slice_chars, unquote};
use crate::error::{RuntimeError, is_config_err};
use crate::text::{
    append_str, chars_eq, chars_is, chars_of, concat2, decimal, decimal_string, owned, string_of, trim,
    trim_chars,
};

verus! {

/// The view of a list of key/value string pairs.
pub open spec fn pairs_view(v: Seq<(String, String)>) -> Seq<(Seq<char>, Seq<char>)> {
    v.map_values(|e: (String, String)| (e.0@, e.1@))
}

/// The value of the last pair whose key is `key`.
pub open spec fn kv_get(kv: Seq<(Seq<char>, Seq<char>)>, key: Seq<char>) -> Option<Seq<char>>
    decreases kv.len(),
{
    if kv.len() == 0 {
        None
    } else if kv.last().0 == key {
        Some(kv.last().1)
    } else {
        kv_get(kv.drop_last(), key)
    }
}

/// The last value recorded for `key`, if any.
pub fn pairs_get<'a>(entries: &'a Vec<(String, String)>, key: &str) -> (r: Option<&'a String>)
    ensures
        match kv_get(pairs_view(entries@), key@) {
            Some(v) => r is Some && r->0@ == v,
            None => r is None,
        },
{
    let k = chars_of(key);
    let mut i = entries.len();
    proof {
        assert(entries@.take(i as int) =~= entries@);
    }
    while i > 0
        invariant
            i <= entries@.len(),
            k@ == key@,
            kv_get(pairs_view(entries@), key@) == kv_get(pairs_view(entries@.take(i as int)), key@),
        decreases i,
    {
        let ek = chars_of(entries[i - 1].0.as_str());
        proof {
            assert(pairs_view(entries@.take(i as int)).drop_last() =~= pairs_view(
                entries@.take(i - 1),
            ));
        }
        if chars_eq(ek.as_slice(), k.as_slice()) {
            return Some(&entries[i - 1].1);
        }
        i -= 1;
    }
    None
}

/// Values read from an env file; a later line for a key replaces an earlier one.
#[derive(Debug, Clone, Default)]
pub struct EnvFileValues {
    pub entries: Vec<(String, String)>,
}

impl EnvFileValues {
    /// The recorded pairs, in file order.
    pub open spec fn pairs(&self) -> Seq<(Seq<char>, Seq<char>)> {
        pairs_view(self.entries@)
    }

    /// No values.
    pub fn empty() -> (r: Self)
        ensures
            r.pairs().len() == 0,
    {
        EnvFileValues { entries: Vec::new() }
    }

    /// The value for `key`, if the file sets it.
    pub fn get(&self, key: &str) -> (r: Option<&str>)
        ensures
            match kv_get(self.pairs(), key@) {
                Some(v) => r is Some && r->0@ == v,
                None => r is None,
            },
    {
        match pairs_get(&self.entries, key) {
            Some(v) => Some(v.as_str()),
            None => None,
        }
    }
}

/// A snapshot of the process environment and terminal facts.
#[derive(Debug, Clone, Default)]
pub struct ProcessEnvironment {
    pub vars: Vec<(String, String)>,
    pub stdin_tty: bool,
    pub stdout_tty: bool,
}

impl ProcessEnvironment {
    /// The variables, in the order recorded; the terminal facts are the fields `stdin_tty` and
    /// `stdout_tty`, which contracts read directly.
    pub open spec fn pairs(&self) -> Seq<(Seq<char>, Seq<char>)> {
        pairs_view(self.vars@)
    }

    /// The value of variable `key`, if set.
    pub fn var(&self, key: &str) -> (r: Option<String>)
        ensures
            match kv_get(self.pairs(), key@) {
                Some(v) => r is Some && r->0@ == v,
                None => r is None,
            },
    {
        match pairs_get(&self.vars, key) {
            Some(v) => Some(v.clone()),
            None => None,
        }
    }
}

/// The first of `keys` that `kv` sets, with its value.
pub open spec fn first_entry(kv: Seq<(Seq<char>, Seq<char>)>, keys: Seq<Seq<char>>) -> Option<
    (Seq<char>, Seq<char>),
>
    decreases keys.len(),
{
    if keys.len() == 0 {
        None
    } else {
        match kv_get(kv, keys[0]) {
            Some(v) => Some((keys[0], v)),
            None => first_entry(kv, keys.drop_first()),
        }
    }
}

/// The views of a list of keys.
pub open spec fn keys_view(keys: Seq<&str>) -> Seq<Seq<char>> {
    keys.map_values(|k: &str| k@)
}

/// The entry the runtime uses for `keys`: the process environment first, then the env file,
/// each in the order of `keys`.
pub open spec fn env_entry(
    env: Seq<(Seq<char>, Seq<char>)>,
    file: Seq<(Seq<char>, Seq<char>)>,
    keys: Seq<Seq<char>>,
) -> Option<(Seq<char>, Seq<char>)> {
    match first_entry(env, keys) {
        Some(e) => Some(e),
        None => first_entry(file, keys),
    }
}

/// The view of an optional pair of strings.
pub open spec fn opt_pair_view(r: Option<(String, String)>) -> Option<(Seq<char>, Seq<char>)> {
    match r {
        Some(p) => Some((p.0@, p.1@)),
        None => None,
    }
}

fn first_entry_exec(entries: &Vec<(String, String)>, keys: &[&str]) -> (r: Option<(String, String)>)
    ensures
        opt_pair_view(r) == first_entry(pairs_view(entries@), keys_view(keys@)),
{
    let mut i: usize = 0;
    proof {
        assert(keys@.skip(0) =~= keys@);
    }
    while i < keys.len()
        invariant
            i <= keys@.len(),
            first_entry(pairs_view(entries@), keys_view(keys@)) == first_entry(
                pairs_view(entries@),
                keys_view(keys@.skip(i as int)),
            ),
        decreases keys@.len() - i,
    {
        let ghost rest = keys_view(keys@.skip(i as int));
        assert(rest[0] == keys@[i as int]@);
        assert(rest.drop_first() =~= keys_view(keys@.skip(i + 1)));
        match pairs_get(entries, keys[i]) {
            Some(v) => {
                return Some((owned(keys[i]), v.clone()));
            },
            None => {},
        }
        i += 1;
    }
    None
}

/// The key and value the runtime uses for `keys`: the process environment first, then the env
/// file.
pub fn env_value_entry(env: &ProcessEnvironment, env_file: &EnvFileValues, keys: &[&str]) -> (r: Option<
    (String, String),
>)
    ensures
        opt_pair_view(r) == env_entry(env.pairs(), env_file.pairs(), keys_view(keys@)),
{
    match first_entry_exec(&env.vars, keys) {
        Some(e) => Some(e),
        None => first_entry_exec(&env_file.entries, keys),
    }
}

/// The value the runtime uses for `keys`.
pub fn env_value(env: &ProcessEnvironment, env_file: &EnvFileValues, keys: &[&str]) -> (r: Option<
    String,
>)
    ensures
        match env_entry(env.pairs(), env_file.pairs(), keys_view(keys@)) {
            Some(e) => r is Some && r->0@ == e.1,
            None => r is None,
        },
{
    match env_value_entry(env, env_file, keys) {
        Some(e) => Some(e.1),
        None => None,
    }
}

/// `l` without one trailing carriage return.
pub open spec fn strip_cr(l: Seq<char>) -> Seq<char> {
    if l.len() > 0 && l.last() == '\r' {
        l.drop_last()
    } else {
        l
    }
}

/// The lines of `s` after the partial line `cur`, split as `str::lines` splits them: at `\n`,
/// with a `\r` before the `\n` removed and no empty line after a final `\n`.
pub open spec fn lines_from(s: Seq<char>, cur: Seq<char>) -> Seq<Seq<char>>
    decreases s.len(),
{
    if s.len() == 0 {
        if cur.len() == 0 {
            seq![]
        } else {
            seq![cur]
        }
    } else if s[0] == '\n' {
        seq![strip_cr(cur)] + lines_from(s.drop_first(), seq![])
    } else {
        lines_from(s.drop_first(), cur.push(s[0]))
    }
}

/// The lines of `s`, as `str::lines` gives them.
pub open spec fn lines(s: Seq<char>) -> Seq<Seq<char>> {
    lines_from(s, seq![])
}

/// The views of a list of character vectors.
pub open spec fn vecs_view(v: Seq<Vec<char>>) -> Seq<Seq<char>> {
    v.map_values(|l: Vec<char>| l@)
}

/// The lines of `s`.
pub fn lines_of(s: &str) -> (r: Vec<Vec<char>>)
    ensures
        vecs_view(r@) == lines(s@),
{
    let cs = chars_of(s);
    let mut out: Vec<Vec<char>> = Vec::new();
    let mut cur: Vec<char> = Vec::new();
    let mut i: usize = 0;
    proof {
        assert(cs@.skip(0) =~= cs@);
        assert(vecs_view(out@) + lines_from(cs@, cur@) =~= lines_from(cs@, cur@));
    }
    while i < cs.len()
        invariant
            cs@ == s@,
            i <= cs@.len(),
            lines(s@) == vecs_view(out@) + lines_from(cs@.skip(i as int), cur@),
        decreases cs@.len() - i,
    {
        let ghost rest = cs@.skip(i as int);
        assert(rest[0] == cs@[i as int]);
        assert(rest.drop_first() =~= cs@.skip(i + 1));
        let c = cs[i];
        if c == '\n' {
            let n = cur.len();
            let line = if n > 0 && cur[n - 1] == '\r' {
                slice_chars(cur.as_slice(), 0, n - 1)
            } else {
                cur
            };
            proof {
                assert(line@ == strip_cr(cur@)) by {
                    if n > 0 && cur@[n - 1] == '\r' {
                        assert(cur@.subrange(0, n - 1) =~= cur@.drop_last());
                    }
                }
            }
            let ghost before = vecs_view(out@);
            out.push(line);
            proof {
                assert(vecs_view(out@) =~= before.push(strip_cr(cur@)));
                assert(before + (seq![strip_cr(cur@)] + lines_from(cs@.skip(i + 1), seq![]))
                    =~= before.push(strip_cr(cur@)) + lines_from(cs@.skip(i + 1), seq![]));
            }
            cur = Vec::new();
            proof {
                assert(cur@ =~= Seq::<char>::empty());
            }
        } else {
            cur.push(c);
        }
        i += 1;
    }
    proof {
        assert(cs@.skip(i as int) =~= Seq::<char>::empty());
    }
    if cur.len() > 0 {
        let ghost before = vecs_view(out@);
        out.push(cur);
        proof {
            assert(vecs_view(out@) =~= before + seq![cur@]);
        }
    } else {
        proof {
            before_eq(vecs_view(out@));
        }
    }
    out
}

proof fn before_eq(a: Seq<Seq<char>>)
    ensures
        a + Seq::<Seq<char>>::empty() == a,
{
    assert(a + Seq::<Seq<char>>::empty() =~= a);
}

/// The first position of `c` in `s`, or the length of `s` when `c` does not occur.
pub open spec fn index_of(s: Seq<char>, c: char) -> int
    decreases s.len(),
{
    if s.len() == 0 {
        0
    } else if s[0] == c {
        0
    } else {
        1 + index_of(s.drop_first(), c)
    }
}

proof fn lemma_index_of_bounds(s: Seq<char>, c: char)
    ensures
        0 <= index_of(s, c) <= s.len(),
        index_of(s, c) < s.len() ==> s[index_of(s, c)] == c,
        forall|k: int| 0 <= k < index_of(s, c) ==> s[k] != c,
    decreases s.len(),
{
    if s.len() > 0 && s[0] != c {
        lemma_index_of_bounds(s.drop_first(), c);
        assert forall|k: int| 0 <= k < index_of(s, c) implies s[k] != c by {
            if k > 0 {
                assert(s[k] == s.drop_first()[k - 1]);
            }
        }
    }
}

/// The first position of `c` in `cs`, or its length when `c` does not occur.
pub fn index_of_exec(cs: &[char], c: char) -> (r: usize)
    ensures
        r == index_of(cs@, c),
{
    proof {
        lemma_index_of_bounds(cs@, c);
    }
    let mut i: usize = 0;
    while i < cs.len()
        invariant
            i <= cs@.len(),
            forall|k: int| 0 <= k < i ==> cs@[k] != c,
        decreases cs@.len() - i,
    {
        if cs[i] == c {
            proof {
                lemma_index_of_unique(cs@, c, i as int);
            }
            return i;
        }
        i += 1;
    }
    proof {
        lemma_index_of_unique(cs@, c, i as int);
    }
    i
}

proof fn lemma_index_of_unique(s: Seq<char>, c: char, i: int)
    requires
        0 <= i <= s.len(),
        forall|k: int| 0 <= k < i ==> s[k] != c,
        i < s.len() ==> s[i] == c,
    ensures
        index_of(s, c) == i,
    decreases s.len(),
{
    if s.len() > 0 && i > 0 {
        assert forall|k: int| 0 <= k < i - 1 implies s.drop_first()[k] != c by {
            assert(s.drop_first()[k] == s[k + 1]);
        }
        lemma_index_of_unique(s.drop_first(), c, i - 1);
    }
}

/// Whether `k` is a variable an env file may set.
pub open spec fn is_supported_env_key(k: Seq<char>) -> bool {
    ||| k == "RADROOTS_OUTPUT"@ || k == "RADROOTS_CLI_LOGGING_FILTER"@
    ||| k == "RADROOTS_CLI_LOGGING_OUTPUT_DIR"@ || k == "RADROOTS_CLI_LOGGING_STDOUT"@
    ||| k == "RADROOTS_CLI_PATHS_PROFILE"@ || k == "RADROOTS_CLI_PATHS_REPO_LOCAL_ROOT"@
    ||| k == "RADROOTS_LOG_FILTER"@ || k == "RADROOTS_LOG_DIR"@ || k == "RADROOTS_LOG_STDOUT"@
    ||| k == "RADROOTS_ACCOUNT"@ || k == "RADROOTS_ACCOUNT_SECRET_BACKEND"@
    ||| k == "RADROOTS_ACCOUNT_SECRET_FALLBACK"@ || k == "RADROOTS_IDENTITY_PATH"@
    ||| k == "RADROOTS_SIGNER"@ || k == "RADROOTS_RELAYS"@ || k == "RADROOTS_MYC_EXECUTABLE"@
    ||| k == "RADROOTS_HYF_ENABLED"@ || k == "RADROOTS_HYF_EXECUTABLE"@ || k == "RADROOTS_RPC_URL"@
    ||| k == "RADROOTS_RPC_BEARER_TOKEN"@
}

/// Whether `k` is a variable an env file may set.
pub fn supported_env_key(k: &[char]) -> (r: bool)
    ensures
        r == is_supported_env_key(k@),
{
    chars_is(k, "RADROOTS_OUTPUT") || chars_is(k, "RADROOTS_CLI_LOGGING_FILTER") || chars_is(
        k,
        "RADROOTS_CLI_LOGGING_OUTPUT_DIR",
    ) || chars_is(k, "RADROOTS_CLI_LOGGING_STDOUT") || chars_is(k, "RADROOTS_CLI_PATHS_PROFILE")
        || chars_is(k, "RADROOTS_CLI_PATHS_REPO_LOCAL_ROOT") || chars_is(k, "RADROOTS_LOG_FILTER")
        || chars_is(k, "RADROOTS_LOG_DIR") || chars_is(k, "RADROOTS_LOG_STDOUT") || chars_is(
        k,
        "RADROOTS_ACCOUNT",
    ) || chars_is(k, "RADROOTS_ACCOUNT_SECRET_BACKEND") || chars_is(
        k,
        "RADROOTS_ACCOUNT_SECRET_FALLBACK",
    ) || chars_is(k, "RADROOTS_IDENTITY_PATH") || chars_is(k, "RADROOTS_SIGNER") || chars_is(
        k,
        "RADROOTS_RELAYS",
    ) || chars_is(k, "RADROOTS_MYC_EXECUTABLE") || chars_is(k, "RADROOTS_HYF_ENABLED") || chars_is(
        k,
        "RADROOTS_HYF_EXECUTABLE",
    ) || chars_is(k, "RADROOTS_RPC_URL") || chars_is(k, "RADROOTS_RPC_BEARER_TOKEN")
}

/// What one line of an env file holds.
pub enum EnvLine {
    /// A blank line or a comment.
    Skip,
    /// A key and its unquoted value.
    Entry(Seq<char>, Seq<char>),
    /// No `=` on the line.
    MissingEquals,
    /// Nothing before the `=`.
    EmptyKey,
    /// A key that env files may not set.
    UnknownKey(Seq<char>),
}

/// How one env file line is read.
pub open spec fn classify_env_line(line: Seq<char>) -> EnvLine {
    let t = trim(line);
    if t.len() == 0 || t[0] == '#' {
        EnvLine::Skip
    } else {
        let i = index_of(t, '=');
        if i >= t.len() {
            EnvLine::MissingEquals
        } else {
            let key = trim(t.take(i));
            if key.len() == 0 {
                EnvLine::EmptyKey
            } else if !is_supported_env_key(key) {
                EnvLine::UnknownKey(key)
            } else {
                EnvLine::Entry(key, unquote(trim(t.skip(i + 1))))
            }
        }
    }
}

/// The message for a rejected line `n` (counted from 1) of env file `path`.
pub open spec fn env_line_error(path: Seq<char>, n: nat, line: EnvLine) -> Seq<char> {
    "invalid env file "@ + path + " line "@ + decimal(n) + match line {
        EnvLine::MissingEquals => ": expected KEY=VALUE"@,
        EnvLine::EmptyKey => ": empty key"@,
        EnvLine::UnknownKey(k) => ": unknown environment variable `"@ + k + "`"@,
        _ => Seq::empty(),
    }
}

/// The pairs env file lines from index `i` on set, or the message for the first bad line.
pub open spec fn parse_env_lines(ls: Seq<Seq<char>>, path: Seq<char>, i: nat) -> Result<
    Seq<(Seq<char>, Seq<char>)>,
    Seq<char>,
>
    decreases ls.len() - i,
{
    if i >= ls.len() {
        Ok(seq![])
    } else {
        match classify_env_line(ls[i as int]) {
            EnvLine::Skip => parse_env_lines(ls, path, i + 1),
            EnvLine::Entry(k, v) => match parse_env_lines(ls, path, i + 1) {
                Ok(rest) => Ok(seq![(k, v)] + rest),
                Err(m) => Err(m),
            },
            bad => Err(env_line_error(path, (i + 1) as nat, bad)),
        }
    }
}

/// Reads the text of an env file at `path`: `KEY=VALUE` lines, blank lines and `#` comments.
pub fn parse_env_file_values(raw: &str, path: &str) -> (r: Result<EnvFileValues, RuntimeError>)
    ensures
        match parse_env_lines(lines(raw@), path@, 0) {
            Ok(kv) => r is Ok && r->Ok_0.pairs() == kv,
            Err(m) => is_config_err(r, m),
        },
{
    let ls = lines_of(raw);
    let ghost lv = vecs_view(ls@);
    let mut entries: Vec<(String, String)> = Vec::new();
    let mut i: usize = 0;
    proof {
        assert(pairs_view(entries@) =~= Seq::<(Seq<char>, Seq<char>)>::empty());
        match parse_env_lines(lv, path@, 0) {
            Ok(rest) => { assert(Seq::<(Seq<char>, Seq<char>)>::empty() + rest =~= rest); },
            Err(m) => {},
        }
    }
    while i < ls.len()
        invariant
            lv == vecs_view(ls@),
            lv == lines(raw@),
            i <= ls@.len(),
            match parse_env_lines(lv, path@, 0) {
                Ok(all) => parse_env_lines(lv, path@, i as nat) is Ok && all == pairs_view(entries@)
                    + parse_env_lines(lv, path@, i as nat)->Ok_0,
                Err(m) => parse_env_lines(lv, path@, i as nat) == Err::<
                    Seq<(Seq<char>, Seq<char>)>,
                    Seq<char>,
                >(m),
            },
        decreases ls@.len() - i,
    {
        assert(lv[i as int] == ls@[i as int]@);
        let t = trim_chars(ls[i].as_slice());
        if t.len() == 0 || t[0] == '#' {
            i += 1;
            continue;
        }
        let eq = index_of_exec(t.as_slice(), '=');
        let n = decimal_string((i + 1) as u128);
        if eq >= t.len() {
            let mut m = concat2("invalid env file ", path);
            append_str(&mut m, " line ");
            append_str(&mut m, n.as_str());
            append_str(&mut m, ": expected KEY=VALUE");
            return Err(RuntimeError::Config(m));
        }
        let kpart = slice_chars(t.as_slice(), 0, eq);
        let key = trim_chars(kpart.as_slice());
        proof {
            assert(kpart@ =~= t@.take(eq as int));
        }
        if key.len() == 0 {
            let mut m = concat2("invalid env file ", path);
            append_str(&mut m, " line ");
            append_str(&mut m, n.as_str());
            append_str(&mut m, ": empty key");
            return Err(RuntimeError::Config(m));
        }
        if !supported_env_key(key.as_slice()) {
            let mut m = concat2("invalid env file ", path);
            append_str(&mut m, " line ");
            append_str(&mut m, n.as_str());
            append_str(&mut m, ": unknown environment variable `");
            let ks = string_of(key.as_slice());
            append_str(&mut m, ks.as_str());
            append_str(&mut m, "`");
            proof {
                assert(m@ =~= env_line_error(path@, (i + 1) as nat, EnvLine::UnknownKey(key@)));
            }
            return Err(RuntimeError::Config(m));
        }
        let vpart = slice_chars(t.as_slice(), eq + 1, t.len());
        proof {
            assert(vpart@ =~= t@.skip(eq + 1));
        }
        let vtrim = trim_chars(vpart.as_slice());
        let vs = string_of(vtrim.as_slice());
        let value = normalize_env_value(vs.as_str());
        let ks = string_of(key.as_slice());
        let ghost before = pairs_view(entries@);
        entries.push((ks, value));
        proof {
            assert(pairs_view(entries@) =~= before.push((key@, unquote(trim(t@.skip(eq + 1))))));
            match parse_env_lines(lv, path@, 0) {
                Ok(all) => {
                    let rest = parse_env_lines(lv, path@, (i + 1) as nat)->Ok_0;
                    assert(before + (seq![(key@, unquote(trim(t@.skip(eq + 1))))] + rest) =~= before.push(
                        (key@, unquote(trim(t@.skip(eq + 1)))),
                    ) + rest);
                },
                Err(m) => {},
            }
        }
        i += 1;
    }
    proof {
        match parse_env_lines(lv, path@, 0) {
            Ok(all) => { assert(all =~= pairs_view(entries@)); },
            Err(m) => {},
        }
    }
    Ok(EnvFileValues { entries })
}

} // verus!
