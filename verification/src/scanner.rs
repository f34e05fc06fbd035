//! The scanner: finds the line of a kernel config that speaks of a symbol
//! and reads the state of the symbol from it; and its inverse, which
//! writes an option as a line.

use vstd::prelude::*;
use vstd::string::StringExecFns;
use crate::error::{outcome, Failure, KcheckError, KcheckResult};
use crate::kconfig::{KconfigState, State};
use crate::text::{
    chars_of, contains, find, find_within, first_occurrence, is_first_occurrence,
    lemma_first_occurrence_unique, lemma_trim_start_unique, skip_whitespace, string_of,
    is_trim_start, trimmed_starts_with, window,
};

verus! {

/// The text that rules a line out for `symbol`: the symbol followed by an
/// underscore, as it begins every longer symbol that extends it.
pub open spec fn guard(symbol: Seq<char>) -> Seq<char> {
    symbol.push('_')
}

/// A line is a candidate for `symbol` where it holds the symbol and does not
/// hold its guard.
pub open spec fn is_candidate(line: Seq<char>, symbol: Seq<char>) -> bool {
    contains(line, symbol) && !contains(line, guard(symbol))
}

/// What stands in a line before the first occurrence of `symbol`.
pub open spec fn prefix_of(line: Seq<char>, symbol: Seq<char>) -> Seq<char> {
    line.take(first_occurrence(line, symbol))
}

/// What stands in a line after the first occurrence of `symbol`.
pub open spec fn suffix_of(line: Seq<char>, symbol: Seq<char>) -> Seq<char> {
    line.skip(first_occurrence(line, symbol) + symbol.len())
}

/// A prefix is a comment where its first character after leading white
/// space is `#`.
pub open spec fn is_comment(prefix: Seq<char>) -> bool {
    trimmed_starts_with(prefix, '#')
}

/// A suffix marks its symbol as not set where it holds the words
/// `is not set`.
pub open spec fn contains_is_not_set(suffix: Seq<char>) -> bool {
    contains(suffix, "is not set"@)
}

/// The text `=`.
pub open spec fn equals_sign() -> Seq<char> {
    seq!['=']
}

/// The token that a suffix assigns: what stands between its first `=` and
/// the next one, or the end of the line where there is no other.
pub open spec fn assigned_token(suffix: Seq<char>) -> Seq<char> {
    let rest = suffix.skip(first_occurrence(suffix, equals_sign()) + 1);
    if contains(rest, equals_sign()) {
        rest.take(first_occurrence(rest, equals_sign()))
    } else {
        rest
    }
}

/// The state that an assigned token stands for.
pub open spec fn token_state(token: Seq<char>) -> Result<State, Failure> {
    if token == seq!['y'] {
        Ok(State::On)
    } else if token == seq!['m'] {
        Ok(State::Module)
    } else if token == seq!['n'] {
        Ok(State::Off)
    } else {
        Err(Failure::UnknownKernelConfigOption(token))
    }
}

/// The state that a candidate line gives its symbol.
pub open spec fn classify(line: Seq<char>, symbol: Seq<char>) -> Result<State, Failure> {
    let prefix = prefix_of(line, symbol);
    let suffix = suffix_of(line, symbol);
    if is_comment(prefix) && contains_is_not_set(suffix) {
        Ok(State::NotSet)
    } else if !is_comment(prefix) && contains(suffix, equals_sign()) {
        token_state(assigned_token(suffix))
    } else {
        Err(Failure::KernelConfigParseError)
    }
}

/// The candidate lines for `symbol`, in the order of the config.
pub open spec fn candidates(lines: Seq<Seq<char>>, symbol: Seq<char>) -> Seq<Seq<char>> {
    lines.filter(|line: Seq<char>| is_candidate(line, symbol))
}

/// The state of `symbol` in a kernel config.
///
/// With no candidate line the symbol is not found; with one, that line
/// decides; with more, the symbol is ambiguous, whatever the lines say.
pub open spec fn lookup(lines: Seq<Seq<char>>, symbol: Seq<char>) -> Result<State, Failure> {
    let found = candidates(lines, symbol);
    if found.len() == 0 {
        Ok(State::NotFound)
    } else if found.len() == 1 {
        classify(found[0], symbol)
    } else {
        Err(Failure::DuplicateConfig(symbol))
    }
}

/// The states that a lookup can give: the symbol is not found, not set,
/// on, a module or off. `Disabled` and `Enabled` are never observed, nor a
/// value or a text. An error says that a line is malformed, that a value
/// is unknown, or that the symbol is ambiguous.
pub proof fn lemma_lookup_outcomes(lines: Seq<Seq<char>>, symbol: Seq<char>)
    ensures
        match lookup(lines, symbol) {
            Ok(state) => state is NotFound || state is NotSet || state is On || state is Module
                || state is Off,
            Err(failure) => failure is KernelConfigParseError
                || failure is UnknownKernelConfigOption || failure == Failure::DuplicateConfig(
                symbol,
            ),
        },
        lookup(lines, symbol) is Ok ==> lookup(lines, symbol)->Ok_0.is_concrete(),
{
}

/// A symbol is found exactly where some line is a candidate for it, and
/// ambiguous exactly where more than one is.
pub proof fn lemma_lookup_by_count(lines: Seq<Seq<char>>, symbol: Seq<char>)
    ensures
        lookup(lines, symbol) == Ok::<State, Failure>(State::NotFound) <==> candidates(
            lines,
            symbol,
        ).len() == 0,
        lookup(lines, symbol) == Err::<State, Failure>(Failure::DuplicateConfig(symbol))
            <==> candidates(lines, symbol).len() >= 2,
{
    let found = candidates(lines, symbol);
    if found.len() == 1 {
        let line = found[0];
        assert(classify(line, symbol) != Ok::<State, Failure>(State::NotFound));
        assert(classify(line, symbol) != Err::<State, Failure>(Failure::DuplicateConfig(symbol)));
    }
}

/// Whether the first `to` characters of `line` are a comment.
fn starts_comment(line: &[char], to: usize) -> (r: bool)
    requires
        to <= line@.len(),
    ensures
        r == is_comment(line@.take(to as int)),
{
    let at = skip_whitespace(line, to);
    let r = at < to && line[at] == '#';
    proof {
        let prefix = line@.take(to as int);
        if is_comment(prefix) {
            let other = choose|other: int|
                0 <= other < prefix.len() && #[trigger] is_trim_start(prefix, other)
                    && prefix[other] == '#';
            lemma_trim_start_unique(prefix, at as int, other);
        }
    }
    r
}

/// The state that the token between `from` and `to` in `line` stands for.
fn token_of(line: &[char], from: usize, to: usize) -> (r: KcheckResult<KconfigState>)
    requires
        from <= to <= line@.len(),
    ensures
        outcome(r) == token_state(line@.subrange(from as int, to as int)),
{
    let ghost token = line@.subrange(from as int, to as int);
    assert(seq!['y'].len() == 1 && seq!['m'].len() == 1 && seq!['n'].len() == 1);
    assert(seq!['y'][0] == 'y' && seq!['m'][0] == 'm' && seq!['n'][0] == 'n');
    if to - from == 1 {
        let c = line[from];
        assert(token =~= seq![c]);
        if c == 'y' {
            return Ok(KconfigState::On);
        } else if c == 'm' {
            return Ok(KconfigState::Module);
        } else if c == 'n' {
            return Ok(KconfigState::Off);
        }
        assert(token[0] == c);
    } else {
        assert(token.len() != 1);
    }
    Err(KcheckError::UnknownKernelConfigOption(string_of(line, from, to)))
}

/// The state that a line gives `symbol`, which first stands in it at `at`.
fn classify_line(line: &[char], symbol: &[char], at: usize) -> (r: KcheckResult<KconfigState>)
    requires
        is_first_occurrence(line@, symbol@, at as int),
    ensures
        outcome(r) == classify(line@, symbol@),
{
    proof {
        lemma_first_occurrence_unique(line@, symbol@, at as int);
    }
    let len = line.len();
    let start = at + symbol.len();
    let ghost suffix = suffix_of(line@, symbol@);
    assert(suffix == window(line@, start as int, len as int));
    let comment = starts_comment(line, at);
    if comment {
        let words = chars_of("is not set");
        match find_within(line, start, len, words.as_slice()) {
            Some(_) => Ok(KconfigState::NotSet),
            None => Err(KcheckError::KernelConfigParseError),
        }
    } else {
        let sign: Vec<char> = vec!['='];
        assert(sign@ =~= equals_sign());
        match find_within(line, start, len, sign.as_slice()) {
            None => Err(KcheckError::KernelConfigParseError),
            Some(first) => {
                proof {
                    lemma_first_occurrence_unique(suffix, equals_sign(), first - start);
                }
                let ghost rest = suffix.skip(first - start + 1);
                assert(rest =~= window(line@, first + 1, len as int));
                match find_within(line, first + 1, len, sign.as_slice()) {
                    Some(next) => {
                        proof {
                            lemma_first_occurrence_unique(rest, equals_sign(), next - (first + 1));
                            assert(rest.take(next - (first + 1)) =~= line@.subrange(
                                first + 1,
                                next as int,
                            ));
                        }
                        token_of(line, first + 1, next)
                    },
                    None => token_of(line, first + 1, len),
                }
            },
        }
    }
}

/// Finds the state of the symbol `symbol` in the lines of a kernel config.
///
/// `Disabled` and `Enabled` are never returned: they are states to ask
/// for, not states to be in.
pub fn scan(lines: &Vec<String>, symbol: &str) -> (r: KcheckResult<KconfigState>)
    ensures
        outcome(r) == lookup(lines.deep_view(), symbol@),
        r is Ok ==> r->Ok_0@.is_concrete(),
{
    let name = chars_of(symbol);
    let mut stop = chars_of(symbol);
    stop.push('_');
    let ghost all = lines.deep_view();
    let ghost pred = |line: Seq<char>| is_candidate(line, symbol@);
    let n = lines.len();
    let mut count: usize = 0;
    let mut first: usize = 0;
    let mut i: usize = 0;
    assert(all.take(0) =~= Seq::empty());
    assert(Seq::<Seq<char>>::empty().filter(pred) =~= Seq::empty()) by {
        reveal(Seq::filter);
    }
    while i < n
        invariant
            name@ == symbol@,
            stop@ == guard(symbol@),
            all == lines.deep_view(),
            pred == (|line: Seq<char>| is_candidate(line, symbol@)),
            n == lines@.len(),
            i <= n,
            count <= i,
            count == all.take(i as int).filter(pred).len(),
            count > 0 ==> first < i && is_candidate(all[first as int], symbol@)
                && all.take(i as int).filter(pred)[0] == all[first as int],
        decreases n - i,
    {
        let line = chars_of(lines[i].as_str());
        let found = find(line.as_slice(), name.as_slice()).is_some() && find(
            line.as_slice(),
            stop.as_slice(),
        ).is_none();
        proof {
            assert(all.take(i + 1) =~= all.take(i as int).push(all[i as int]));
            all.take(i as int).lemma_filter_push(all[i as int], pred);
            assert(line@ == all[i as int]);
            assert(found == pred(all[i as int]));
        }
        if found {
            if count == 0 {
                first = i;
            }
            count += 1;
        }
        i += 1;
    }
    assert(all.take(n as int) =~= all);
    if count == 0 {
        Ok(KconfigState::NotFound)
    } else if count == 1 {
        let line = chars_of(lines[first].as_str());
        assert(line@ == all[first as int]);
        match find(line.as_slice(), name.as_slice()) {
            Some(at) => classify_line(line.as_slice(), name.as_slice(), at),
            None => Err(KcheckError::KernelConfigParseError),
        }
    } else {
        Err(KcheckError::DuplicateConfig(String::from_str(symbol)))
    }
}

/// The line that says of `symbol` that it is in state `state`, where
/// there is such a line.
///
/// An option that is not found has no line, and a numeric value cannot be
/// written. `Disabled` is written as off and `Enabled` as on.
pub open spec fn rendered(symbol: Seq<char>, state: State) -> Option<Seq<char>> {
    match state {
        State::NotFound => None,
        State::NotSet => Some("# "@ + symbol + " is not set"@),
        State::Off | State::Disabled => Some(symbol + "=n"@),
        State::On | State::Enabled => Some(symbol + "=y"@),
        State::Module => Some(symbol + "=m"@),
        State::Value(_) => None,
        State::Text(text) => Some(symbol + "=\""@ + text + "\""@),
    }
}

/// Writes the line that says of `option` that it is in state `state`.
pub fn render_line(option: &str, state: &KconfigState) -> (r: Option<String>)
    ensures
        r.deep_view() == rendered(option@, state@),
{
    match state {
        KconfigState::NotFound => None,
        KconfigState::NotSet => {
            let mut line = String::from_str("# ");
            line.append(option);
            line.append(" is not set");
            Some(line)
        },
        KconfigState::Off | KconfigState::Disabled => {
            let mut line = String::from_str(option);
            line.append("=n");
            Some(line)
        },
        KconfigState::On | KconfigState::Enabled => {
            let mut line = String::from_str(option);
            line.append("=y");
            Some(line)
        },
        KconfigState::Module => {
            let mut line = String::from_str(option);
            line.append("=m");
            Some(line)
        },
        KconfigState::Value(_) => None,
        KconfigState::Text(text) => {
            let mut line = String::from_str(option);
            line.append("=\"");
            line.append(text.as_str());
            line.append("\"");
            Some(line)
        },
    }
}

} // verus!
