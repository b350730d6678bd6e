use vstd::prelude::*;
use vstd::std_specs::iter::IteratorSpec;

verus! {

/// The line separator that splits a configuration record.
pub const SEPARATOR: char = '\n';

/// How the configured tool is invoked.
#[derive(Debug)]
pub enum Config {
    /// A standalone executable, run directly.
    Frozen(String),
    /// A script run by an explicitly named interpreter.
    PySource { exe: String, script: String },
}

/// The mathematical value of a `Config`: its paths as character sequences.
pub enum ConfigModel {
    Frozen(Seq<char>),
    PySource { exe: Seq<char>, script: Seq<char> },
}

impl View for Config {
    type V = ConfigModel;

    open spec fn view(&self) -> ConfigModel {
        match self {
            Config::Frozen(exe) => ConfigModel::Frozen(exe@),
            Config::PySource { exe, script } => ConfigModel::PySource { exe: exe@, script: script@ },
        }
    }
}

/// `i` is the position of the first separator in `text`.
pub open spec fn is_first_separator(text: Seq<char>, i: int) -> bool {
    &&& 0 <= i < text.len()
    &&& text[i] == SEPARATOR
    &&& !text.take(i).contains(SEPARATOR)
}

/// The configuration that a record denotes: without a separator the whole
/// text names a frozen executable; otherwise the text before the first
/// separator names the interpreter and everything after it the script.
pub open spec fn resolve(text: Seq<char>) -> ConfigModel {
    if text.contains(SEPARATOR) {
        let i = choose|i: int| is_first_separator(text, i);
        ConfigModel::PySource { exe: text.take(i), script: text.skip(i + 1) }
    } else {
        ConfigModel::Frozen(text)
    }
}

/// The first separator of a text is unique.
proof fn lemma_first_separator_unique(text: Seq<char>, i: int, j: int)
    requires
        is_first_separator(text, i),
        is_first_separator(text, j),
    ensures
        i == j,
{
    if i < j {
        assert(text.take(j)[i] == SEPARATOR);
    } else if j < i {
        assert(text.take(i)[j] == SEPARATOR);
    }
}

/// A text whose first separator stands at `i` resolves to the interpreter
/// before it and the script after it.
proof fn lemma_resolve_at(text: Seq<char>, i: int)
    requires
        is_first_separator(text, i),
    ensures
        resolve(text) == (ConfigModel::PySource { exe: text.take(i), script: text.skip(i + 1) }),
{
    assert(text.contains(SEPARATOR)) by {
        assert(text[i] == SEPARATOR);
    }
    let k = choose|k: int| is_first_separator(text, k);
    lemma_first_separator_unique(text, i, k);
}

/// Joining an interpreter path that holds no separator and any script path
/// with one separator gives a record that resolves to exactly that pair.
pub proof fn lemma_resolve_joined(exe: Seq<char>, script: Seq<char>)
    requires
        !exe.contains(SEPARATOR),
    ensures
        resolve(exe + seq![SEPARATOR] + script) == (ConfigModel::PySource { exe, script }),
{
    let text = exe + seq![SEPARATOR] + script;
    let i = exe.len() as int;
    assert(text.take(i) =~= exe);
    assert(text.skip(i + 1) =~= script);
    assert(text[i] == SEPARATOR);
    lemma_resolve_at(text, i);
}

/// Classifies a configuration record.
pub fn parse_config(conf: String) -> (r: Config)
    ensures
        r@ == resolve(conf@),
        !conf@.contains(SEPARATOR) ==> r@ == ConfigModel::Frozen(conf@),
        forall|i: int|
            is_first_separator(conf@, i) ==> r@ == (ConfigModel::PySource {
                exe: conf@.take(i),
                script: conf@.skip(i + 1),
            }),
{
    proof {
        assert forall|j: int| is_first_separator(conf@, j) implies resolve(conf@) == (
        ConfigModel::PySource { exe: conf@.take(j), script: conf@.skip(j + 1) }) by {
            lemma_resolve_at(conf@, j);
        }
    }
    let text = conf.as_str();
    let n = text.unicode_len();
    let mut chars = text.chars();
    let mut i: usize = 0;
    let mut found = false;
    while i < n && !found
        invariant
            n == text@.len(),
            text@ == conf@,
            i <= n,
            found ==> 0 < i && text@[i - 1] == SEPARATOR,
            found ==> !text@.take(i - 1).contains(SEPARATOR),
            !found ==> !text@.take(i as int).contains(SEPARATOR),
            chars.remaining() == text@.skip(i as int),
        decreases n - i,
    {
        let c = chars.next();
        match c {
            Some(c) => {
                assert(c == text@[i as int]);
                if c == SEPARATOR {
                    found = true;
                } else {
                    assert(text@.take(i + 1) =~= text@.take(i as int).push(c));
                }
                i = i + 1;
            },
            None => {
                i = n;
            },
        }
    }
    if found {
        let sep = i - 1;
        proof {
            lemma_resolve_at(conf@, sep as int);
        }
        let exe = text.substring_char(0, sep).to_owned();
        let script = text.substring_char(i, n).to_owned();
        Config::PySource { exe, script }
    } else {
        assert(text@.take(n as int) =~= text@);
        Config::Frozen(conf)
    }
}

} // verus!
