use vstd::prelude::*;

use crate::error::RuntimeError;
use crate::text::{
    append_str, concat2, nonblank_trimmed, owned, split, split_trim_nonempty, str_eq, strings_view, trim,
    trim_string,
};

verus! {

/// What `url::Url::parse` gives for `input`: the scheme and whether the URL has a host, or the
/// text of the parse error.
pub uninterp spec fn url_parse_outcome(input: Seq<char>) -> Result<(Seq<char>, bool), Seq<char>>;

/// The view of a parse outcome.
pub open spec fn url_outcome_view(r: Result<(String, bool), String>) -> Result<(Seq<char>, bool), Seq<char>> {
    match r {
        Ok(p) => Ok((p.0@, p.1)),
        Err(e) => Err(e@),
    }
}

/// Parses `input` with `url::Url::parse` and reports its scheme and whether it has a host,
/// or the parse error's message.
#[verifier::external_body]
fn parse_url(input: &str) -> (r: Result<(String, bool), String>)
    ensures
        url_outcome_view(r) == url_parse_outcome(input@),
{
    match url::Url::parse(input) {
        Ok(parsed) => Ok((parsed.scheme().to_owned(), parsed.host_str().is_some())),
        Err(error) => Err(error.to_string()),
    }
}

/// What `validate_relay_url` answers for the trimmed url `t`, given the parse outcome.
pub open spec fn relay_url_result(
    t: Seq<char>,
    source: Seq<char>,
    parsed: Result<(Seq<char>, bool), Seq<char>>,
) -> Result<Seq<char>, Seq<char>> {
    if t.len() == 0 {
        Err(source + " contains an empty relay url"@)
    } else {
        match parsed {
            Err(e) => Err(source + " contains invalid relay url `"@ + t + "`: "@ + e),
            Ok(p) => if (p.0 == "ws"@ || p.0 == "wss"@) && p.1 {
                Ok(t)
            } else {
                Err(source + " must use websocket relay urls, got `"@ + t + "`"@)
            },
        }
    }
}

/// The view of a validation result.
pub open spec fn string_result_view(r: Result<String, RuntimeError>) -> Result<Seq<char>, Seq<char>> {
    match r {
        Ok(s) => Ok(s@),
        Err(e) => Err(e.message_view()),
    }
}

/// Decides on a trimmed relay url from what the url parser reported for it.
pub fn relay_url_verdict(trimmed: &str, source: &str, parsed: Result<(String, bool), String>) -> (r:
    Result<String, RuntimeError>)
    ensures
        r matches Err(e) ==> e is Config,
        string_result_view(r) == relay_url_result(trimmed@, source@, url_outcome_view(parsed)),
{
    if trimmed.is_empty() {
        return Err(RuntimeError::Config(concat2(source, " contains an empty relay url")));
    }
    match parsed {
        Err(e) => {
            let mut m = concat2(source, " contains invalid relay url `");
            append_str(&mut m, trimmed);
            append_str(&mut m, "`: ");
            append_str(&mut m, e.as_str());
            Err(RuntimeError::Config(m))
        },
        Ok((scheme, has_host)) => {
            if (str_eq(scheme.as_str(), "ws") || str_eq(scheme.as_str(), "wss")) && has_host {
                Ok(owned(trimmed))
            } else {
                let mut m = concat2(source, " must use websocket relay urls, got `");
                append_str(&mut m, trimmed);
                append_str(&mut m, "`");
                Err(RuntimeError::Config(m))
            }
        },
    }
}

/// Accepts a websocket relay url (`ws` or `wss` with a host), trimmed; `source` names where it
/// came from in the error.
pub fn validate_relay_url(value: &str, source: &str) -> (r: Result<String, RuntimeError>)
    ensures
        r matches Err(e) ==> e is Config,
        string_result_view(r) == relay_url_result(
            trim(value@),
            source@,
            url_parse_outcome(trim(value@)),
        ),
{
    let t = trim_string(value);
    if t.as_str().is_empty() {
        return Err(RuntimeError::Config(concat2(source, " contains an empty relay url")));
    }
    let parsed = parse_url(t.as_str());
    relay_url_verdict(t.as_str(), source, parsed)
}

/// What `validate_rpc_url` answers for the trimmed url `t`, given the parse outcome.
pub open spec fn rpc_url_result(t: Seq<char>, parsed: Result<(Seq<char>, bool), Seq<char>>) -> Result<
    Seq<char>,
    Seq<char>,
> {
    if t.len() == 0 {
        Err("rpc url must not be empty"@)
    } else {
        match parsed {
            Err(e) => Err("rpc url `"@ + t + "` is invalid: "@ + e),
            Ok(p) => if (p.0 == "http"@ || p.0 == "https"@) && p.1 {
                Ok(t)
            } else {
                Err("rpc url must use http or https, got `"@ + t + "`"@)
            },
        }
    }
}

/// Decides on a trimmed rpc url from what the url parser reported for it.
pub fn rpc_url_verdict(trimmed: &str, parsed: Result<(String, bool), String>) -> (r: Result<
    String,
    RuntimeError,
>)
    ensures
        r matches Err(e) ==> e is Config,
        string_result_view(r) == rpc_url_result(trimmed@, url_outcome_view(parsed)),
{
    if trimmed.is_empty() {
        return Err(RuntimeError::Config(owned("rpc url must not be empty")));
    }
    match parsed {
        Err(e) => {
            let mut m = concat2("rpc url `", trimmed);
            append_str(&mut m, "` is invalid: ");
            append_str(&mut m, e.as_str());
            Err(RuntimeError::Config(m))
        },
        Ok((scheme, has_host)) => {
            if (str_eq(scheme.as_str(), "http") || str_eq(scheme.as_str(), "https")) && has_host {
                Ok(owned(trimmed))
            } else {
                let mut m = concat2("rpc url must use http or https, got `", trimmed);
                append_str(&mut m, "`");
                Err(RuntimeError::Config(m))
            }
        },
    }
}

/// Accepts an http or https rpc url with a host, trimmed.
pub fn validate_rpc_url(value: &str) -> (r: Result<String, RuntimeError>)
    ensures
        r matches Err(e) ==> e is Config,
        string_result_view(r) == rpc_url_result(trim(value@), url_parse_outcome(trim(value@))),
{
    let t = trim_string(value);
    if t.as_str().is_empty() {
        return Err(RuntimeError::Config(owned("rpc url must not be empty")));
    }
    let parsed = parse_url(t.as_str());
    rpc_url_verdict(t.as_str(), parsed)
}

/// The relay list from `vals` after `acc`: each validated, duplicates dropped, first error wins.
pub open spec fn normalize_relays(vals: Seq<Seq<char>>, source: Seq<char>, acc: Seq<Seq<char>>) -> Result<
    Seq<Seq<char>>,
    Seq<char>,
>
    decreases vals.len(),
{
    if vals.len() == 0 {
        Ok(acc)
    } else {
        let t = trim(vals[0]);
        match relay_url_result(t, source, url_parse_outcome(t)) {
            Err(m) => Err(m),
            Ok(u) => normalize_relays(
                vals.drop_first(),
                source,
                if acc.contains(u) {
                    acc
                } else {
                    acc.push(u)
                },
            ),
        }
    }
}

/// The view of a result holding a list of strings.
pub open spec fn strings_result_view(r: Result<Vec<String>, RuntimeError>) -> Result<
    Seq<Seq<char>>,
    Seq<char>,
> {
    match r {
        Ok(v) => Ok(strings_view(v@)),
        Err(e) => Err(e.message_view()),
    }
}

fn contains_string(v: &Vec<String>, s: &str) -> (r: bool)
    ensures
        r == strings_view(v@).contains(s@),
{
    let mut i: usize = 0;
    while i < v.len()
        invariant
            i <= v@.len(),
            forall|k: int| 0 <= k < i ==> v@[k]@ != s@,
        decreases v@.len() - i,
    {
        if str_eq(v[i].as_str(), s) {
            proof {
                assert(strings_view(v@)[i as int] == s@);
            }
            return true;
        }
        i += 1;
    }
    proof {
        if strings_view(v@).contains(s@) {
            let k = choose|k: int| 0 <= k < strings_view(v@).len() && strings_view(v@)[k] == s@;
            assert(v@[k]@ == s@);
        }
    }
    false
}

/// Validates every relay url, keeping the first occurrence of each.
pub fn normalize_relay_urls(values: Vec<String>, source: &str) -> (r: Result<Vec<String>, RuntimeError>)
    ensures
        r matches Err(e) ==> e is Config,
        strings_result_view(r) == normalize_relays(strings_view(values@), source@, seq![]),
        r matches Ok(v) ==> strings_view(v@).no_duplicates(),
{
    let ghost vals = strings_view(values@);
    let mut out: Vec<String> = Vec::new();
    let mut i: usize = 0;
    proof {
        assert(vals.skip(0) =~= vals);
        assert(strings_view(out@) =~= Seq::<Seq<char>>::empty());
    }
    while i < values.len()
        invariant
            vals == strings_view(values@),
            i <= values@.len(),
            normalize_relays(vals, source@, seq![]) == normalize_relays(
                vals.skip(i as int),
                source@,
                strings_view(out@),
            ),
            strings_view(out@).no_duplicates(),
        decreases values@.len() - i,
    {
        let ghost rest = vals.skip(i as int);
        assert(rest[0] == values@[i as int]@);
        assert(rest.drop_first() =~= vals.skip(i + 1));
        let relay = validate_relay_url(values[i].as_str(), source);
        match relay {
            Err(e) => {
                return Err(e);
            },
            Ok(u) => {
                if !contains_string(&out, u.as_str()) {
                    let ghost before = strings_view(out@);
                    out.push(u);
                    proof {
                        assert(strings_view(out@) =~= before.push(out@[out@.len() - 1]@));
                    }
                }
            },
        }
        i += 1;
    }
    proof {
        assert(vals.skip(i as int) =~= Seq::<Seq<char>>::empty());
    }
    Ok(out)
}

/// The relay list from an environment value: comma-separated, blanks ignored, at least one.
pub open spec fn relay_env_result(value: Seq<char>, key: Seq<char>) -> Result<Seq<Seq<char>>, Seq<char>> {
    let entries = nonblank_trimmed(split(value, ','));
    if entries.len() == 0 {
        Err(key + " must contain at least one websocket relay url"@)
    } else {
        normalize_relays(entries, key, seq![])
    }
}

/// Reads a comma-separated relay list from environment variable `key`.
pub fn parse_relay_env_value(value: &str, key: &str) -> (r: Result<Vec<String>, RuntimeError>)
    ensures
        r matches Err(e) ==> e is Config,
        strings_result_view(r) == relay_env_result(value@, key@),
{
    let entries = split_trim_nonempty(value, ',');
    if entries.len() == 0 {
        return Err(RuntimeError::Config(concat2(key, " must contain at least one websocket relay url")));
    }
    normalize_relay_urls(entries, key)
}

} // verus!
