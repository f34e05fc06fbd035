//! Writing an option as a line and reading it back.

use vstd::prelude::*;
use crate::error::Failure;
use crate::kconfig::State;
use crate::scanner::{
    assigned_token, candidates, classify, equals_sign, guard, is_candidate, is_comment, lookup,
    prefix_of, rendered, suffix_of, token_state,
};
use crate::text::{
    is_first_occurrence, is_trim_start, lemma_first_occurrence_unique, occurs_at,
    trimmed_starts_with,
};

verus! {

/// The tokens of the kernel's tristate: `y` is on, `m` a module, `n` off.
pub proof fn lemma_tristate_tokens()
    ensures
        token_state(seq!['y']) == Ok::<State, Failure>(State::On),
        token_state(seq!['m']) == Ok::<State, Failure>(State::Module),
        token_state(seq!['n']) == Ok::<State, Failure>(State::Off),
{
    assert(seq!['m'][0] != seq!['y'][0]);
    assert(seq!['n'][0] != seq!['y'][0]);
    assert(seq!['n'][0] != seq!['m'][0]);
}

/// In a config of one line, the line decides where it is a candidate.
proof fn lemma_lookup_single(line: Seq<char>, symbol: Seq<char>)
    requires
        is_candidate(line, symbol),
    ensures
        lookup(seq![line], symbol) == classify(line, symbol),
{
    let pred = |l: Seq<char>| is_candidate(l, symbol);
    let none = Seq::<Seq<char>>::empty();
    none.lemma_filter_len(pred);
    none.lemma_filter_push(line, pred);
    assert(none.push(line) =~= seq![line]);
    assert(none.filter(pred) =~= none);
    assert(candidates(seq![line], symbol) =~= seq![line]);
}

/// A symbol followed by `=` and one character is a candidate line for the
/// symbol, and assigns it that character.
proof fn lemma_assignment_read_back(symbol: Seq<char>, value: char)
    requires
        value != '_',
        value != '=',
    ensures
        is_candidate(symbol + seq!['=', value], symbol),
        classify(symbol + seq!['=', value], symbol) == token_state(seq![value]),
{
    let line = symbol + seq!['=', value];
    let n = symbol.len() as int;
    assert(line.subrange(0, n) =~= symbol);
    assert(occurs_at(line, symbol, 0));
    assert(is_first_occurrence(line, symbol, 0));
    lemma_first_occurrence_unique(line, symbol, 0);
    assert forall|at: int| !occurs_at(line, guard(symbol), at) by {
        if occurs_at(line, guard(symbol), at) {
            let part = line.subrange(at, at + n + 1);
            assert(part[n] == guard(symbol)[n]);
            assert(part[n] == line[at + n]);
            assert(at == 0 || at == 1);
        }
    }
    let prefix = prefix_of(line, symbol);
    assert(prefix.len() == 0);
    assert(!is_comment(prefix));
    let suffix = suffix_of(line, symbol);
    assert(suffix =~= seq!['=', value]);
    let sign = equals_sign();
    assert(suffix.subrange(0, 1) =~= sign);
    assert(is_first_occurrence(suffix, sign, 0));
    lemma_first_occurrence_unique(suffix, sign, 0);
    let rest = suffix.skip(1);
    assert(rest =~= seq![value]);
    assert forall|at: int| !occurs_at(rest, sign, at) by {
        if occurs_at(rest, sign, at) {
            assert(at == 0);
            assert(rest.subrange(0, 1)[0] == sign[0]);
        }
    }
    assert(assigned_token(suffix) == rest);
}

/// A symbol that stands at the start of a text that begins with `#` and a
/// space, and goes on with the symbol itself, is made of those two
/// characters in turn.
proof fn lemma_hash_space_pattern(symbol: Seq<char>, at: int)
    requires
        0 <= at < symbol.len(),
        symbol.len() >= 1 ==> symbol[0] == '#',
        symbol.len() >= 2 ==> symbol[1] == ' ',
        forall|j: int| 2 <= j < symbol.len() ==> #[trigger] symbol[j] == symbol[j - 2],
    ensures
        symbol[at] == '#' || symbol[at] == ' ',
    decreases at,
{
    if at >= 2 {
        lemma_hash_space_pattern(symbol, at - 2);
    }
}

/// A symbol in which every character is that before it, after a first
/// space, is made of spaces.
proof fn lemma_space_pattern(symbol: Seq<char>, at: int)
    requires
        0 <= at < symbol.len(),
        symbol[0] == ' ',
        forall|j: int| 1 <= j < symbol.len() ==> #[trigger] symbol[j] == symbol[j - 1],
    ensures
        symbol[at] == ' ',
    decreases at,
{
    if at >= 1 {
        lemma_space_pattern(symbol, at - 1);
    }
}

/// The comment that marks a symbol as not set is a candidate line for the
/// symbol and reads back as not set, unless the symbol stands at the very
/// start of the line.
proof fn lemma_not_set_read_back(symbol: Seq<char>)
    requires
        !occurs_at(seq!['#', ' '] + symbol + " is not set"@, symbol, 0),
    ensures
        is_candidate(seq!['#', ' '] + symbol + " is not set"@, symbol),
        classify(seq!['#', ' '] + symbol + " is not set"@, symbol) == Ok::<State, Failure>(
            State::NotSet,
        ),
{
    reveal_strlit(" is not set");
    reveal_strlit("is not set");
    let tail = " is not set"@;
    let words = "is not set"@;
    let line = seq!['#', ' '] + symbol + tail;
    let n = symbol.len() as int;
    assert(line.len() == n + 13);
    assert(line[0] == '#' && line[1] == ' ');
    assert forall|j: int| 0 <= j < n implies line[2 + j] == symbol[j] by {}
    assert forall|j: int| 0 <= j < 11 implies line[2 + n + j] == tail[j] by {}
    assert(line.subrange(2, 2 + n) =~= symbol);
    assert(occurs_at(line, symbol, 2));
    let stop = guard(symbol);
    assert forall|at: int| !occurs_at(line, stop, at) by {
        if occurs_at(line, stop, at) {
            let part = line.subrange(at, at + n + 1);
            assert(part == stop);
            assert(part[n] == '_');
            assert(line[at + n] == '_');
            if at + n >= n + 2 {
                assert(line[at + n] == tail[at + n - (2 + n)]);
            }
            assert(at == 0 || at == 1);
            assert forall|j: int| 0 <= j < n implies line[at + j] == symbol[j] by {
                assert(part[j] == stop[j]);
            }
            if at == 0 {
                if n >= 2 {
                    assert forall|j: int| 2 <= j < n implies #[trigger] symbol[j] == symbol[j
                        - 2] by {
                        assert(line[j] == symbol[j]);
                        assert(line[2 + (j - 2)] == symbol[j - 2]);
                    }
                    assert(line[0] == symbol[0]);
                    assert(line[1] == symbol[1]);
                    assert(line[2 + (n - 2)] == symbol[n - 2]);
                    lemma_hash_space_pattern(symbol, n - 2);
                }
            } else {
                if n >= 1 {
                    assert(line[1] == symbol[0]);
                    assert forall|j: int| 1 <= j < n implies #[trigger] symbol[j] == symbol[j
                        - 1] by {
                        assert(line[1 + j] == symbol[j]);
                        assert(line[2 + (j - 1)] == symbol[j - 1]);
                    }
                    assert(line[2 + (n - 1)] == symbol[n - 1]);
                    lemma_space_pattern(symbol, n - 1);
                }
            }
        }
    }
    let first = if occurs_at(line, symbol, 1) {
        1int
    } else {
        2int
    };
    assert(is_first_occurrence(line, symbol, first));
    lemma_first_occurrence_unique(line, symbol, first);
    let prefix = prefix_of(line, symbol);
    assert(prefix.len() == first);
    assert(prefix[0] == '#');
    assert(is_trim_start(prefix, 0));
    assert(trimmed_starts_with(prefix, '#'));
    let suffix = suffix_of(line, symbol);
    assert(suffix.len() == 13 - first);
    assert forall|j: int| 0 <= j < 10 implies suffix[3 - first + j] == words[j] by {
        assert(suffix[3 - first + j] == line[first + n + 3 - first + j]);
        assert(line[2 + n + (1 + j)] == tail[1 + j]);
    }
    assert(suffix.subrange(3 - first, 3 - first + 10) =~= words);
    assert(occurs_at(suffix, words, 3 - first));
}

/// Writing an option as a line and looking the symbol up in a config of
/// that line alone gives the state that was written, for the states on,
/// module, off and not set.
///
/// For not set the line is a comment, so the symbol must not itself stand
/// at the start of the line (as the empty symbol does, or the symbol `#`):
/// there the line reads as malformed.
pub proof fn lemma_round_trip(symbol: Seq<char>, state: State)
    requires
        state is On || state is Module || state is Off || state is NotSet,
        state is NotSet ==> !occurs_at(rendered(symbol, state)->0, symbol, 0),
    ensures
        rendered(symbol, state) is Some,
        lookup(seq![rendered(symbol, state)->0], symbol) == Ok::<State, Failure>(state),
{
    reveal_strlit("=y");
    reveal_strlit("=m");
    reveal_strlit("=n");
    reveal_strlit("# ");
    let line = rendered(symbol, state)->0;
    lemma_tristate_tokens();
    match state {
        State::On => {
            assert("=y"@ =~= seq!['=', 'y']);
            lemma_assignment_read_back(symbol, 'y');
            assert(line == symbol + seq!['=', 'y']);
        },
        State::Module => {
            assert("=m"@ =~= seq!['=', 'm']);
            lemma_assignment_read_back(symbol, 'm');
            assert(line == symbol + seq!['=', 'm']);
        },
        State::Off => {
            assert("=n"@ =~= seq!['=', 'n']);
            lemma_assignment_read_back(symbol, 'n');
            assert(line == symbol + seq!['=', 'n']);
        },
        _ => {
            assert("# "@ =~= seq!['#', ' ']);
            assert(line == seq!['#', ' '] + symbol + " is not set"@);
            lemma_not_set_read_back(symbol);
        },
    }
    lemma_lookup_single(line, symbol);
}

/// Where the symbol stands at the very start of the comment that marks it
/// as not set, the line does not read back as not set.
pub proof fn lemma_not_set_at_line_start(symbol: Seq<char>)
    requires
        occurs_at(rendered(symbol, State::NotSet)->0, symbol, 0),
    ensures
        lookup(seq![rendered(symbol, State::NotSet)->0], symbol) != Ok::<State, Failure>(
            State::NotSet,
        ),
{
    let line = rendered(symbol, State::NotSet)->0;
    if is_candidate(line, symbol) {
        lemma_lookup_single(line, symbol);
        assert(is_first_occurrence(line, symbol, 0));
        lemma_first_occurrence_unique(line, symbol, 0);
        assert(prefix_of(line, symbol).len() == 0);
        assert(!is_comment(prefix_of(line, symbol)));
    } else {
        let pred = |l: Seq<char>| is_candidate(l, symbol);
        let none = Seq::<Seq<char>>::empty();
        none.lemma_filter_len(pred);
        none.lemma_filter_push(line, pred);
        assert(none.push(line) =~= seq![line]);
        assert(none.filter(pred) =~= none);
        assert(candidates(seq![line], symbol) =~= none);
    }
}

/// `Disabled` is written as off and `Enabled` as on, so that is what they
/// read back as.
pub proof fn lemma_round_trip_of_sets(symbol: Seq<char>)
    ensures
        rendered(symbol, State::Disabled) == rendered(symbol, State::Off),
        rendered(symbol, State::Enabled) == rendered(symbol, State::On),
        lookup(seq![rendered(symbol, State::Disabled)->0], symbol) == Ok::<State, Failure>(
            State::Off,
        ),
        lookup(seq![rendered(symbol, State::Enabled)->0], symbol) == Ok::<State, Failure>(
            State::On,
        ),
{
    lemma_round_trip(symbol, State::Off);
    lemma_round_trip(symbol, State::On);
}

/// A text never reads back as the text that was written: a lookup gives
/// no text.
pub proof fn lemma_text_not_read_back(symbol: Seq<char>, text: Seq<char>)
    ensures
        rendered(symbol, State::Text(text)) is Some,
        lookup(seq![rendered(symbol, State::Text(text))->0], symbol) != Ok::<State, Failure>(
            State::Text(text),
        ),
{
    crate::scanner::lemma_lookup_outcomes(seq![rendered(symbol, State::Text(text))->0], symbol);
}

} // verus!
