//! The workflow's inputs: how each one is named in the environment, trimmed,
//! checked and split into a list. The lookup itself is the caller's: these
//! functions take the raw value it found, if any.
use vstd::prelude::*;
use vstd::string::*;

verus! {

/// What an input's value becomes once trimmed: `str::trim`, which drops
/// leading and trailing Unicode whitespace.
pub uninterp spec fn trimmed(s: Seq<char>) -> Seq<char>;

/// What a name becomes in upper case: `str::to_uppercase`.
pub uninterp spec fn upper_of(s: Seq<char>) -> Seq<char>;

/// Relies on `str::trim`.
#[verifier::external_body]
fn trim_text(s: &str) -> (r: &str)
    ensures
        r@ == trimmed(s@),
{
    s.trim()
}

/// Relies on `str::to_uppercase`.
#[verifier::external_body]
fn uppercase(s: &str) -> (r: String)
    ensures
        r@ == upper_of(s@),
{
    s.to_uppercase()
}

/// Each space replaced by an underscore.
pub open spec fn spaces_to_underscores(s: Seq<char>) -> Seq<char> {
    s.map_values(|c: char| if c == ' ' { '_' } else { c })
}

/// Relies on `str::replace`, which replaces every occurrence of the
/// one-character pattern `" "` by `"_"`.
#[verifier::external_body]
fn replace_spaces(s: &str) -> (r: String)
    ensures
        r@ == spaces_to_underscores(s@),
{
    s.replace(" ", "_")
}

/// Prefix of the environment variables that carry the workflow's inputs.
pub const INPUT_PREFIX: &'static str = "INPUT_";

/// The environment variable that carries input `name`: the prefix, then the
/// name in upper case with spaces turned to underscores.
pub fn input_key(name: &str) -> (r: String)
    ensures
        r@ == INPUT_PREFIX@ + upper_of(spaces_to_underscores(name@)),
{
    let replaced = replace_spaces(name);
    let upper = uppercase(replaced.as_str());
    let mut key = String::from_str(INPUT_PREFIX);
    key.append(upper.as_str());
    key
}

/// How an input is read.
#[derive(Debug, Clone, Copy, PartialEq, Eq)]
pub struct InputOptions {
    /// A missing or empty value is an error.
    pub required: bool,
    /// Leading and trailing whitespace is dropped.
    pub trim_whitespace: bool,
}

/// Why a required input was refused; each names the input.
#[derive(Debug, PartialEq, Eq)]
pub enum InputError {
    /// The input was not given.
    Required(String),
    /// The input was given but is empty.
    Empty(String),
}

/// An input error as a mathematical value.
pub enum InputErrorView {
    Required(Seq<char>),
    Empty(Seq<char>),
}

impl View for InputError {
    type V = InputErrorView;

    open spec fn view(&self) -> InputErrorView {
        match self {
            InputError::Required(n) => InputErrorView::Required(n@),
            InputError::Empty(n) => InputErrorView::Empty(n@),
        }
    }
}

/// The message shown for an input error.
pub open spec fn error_message(e: InputErrorView) -> Seq<char> {
    match e {
        InputErrorView::Required(n) => "Input '"@ + n + "' is required"@,
        InputErrorView::Empty(n) => "Input '"@ + n + "' cannot be empty"@,
    }
}

impl InputError {
    /// The message shown for this error.
    pub fn message(&self) -> (r: String)
        ensures
            r@ == error_message(self@),
    {
        let mut r = String::from_str("Input '");
        match self {
            InputError::Required(n) => {
                r.append(n.as_str());
                r.append("' is required");
            },
            InputError::Empty(n) => {
                r.append(n.as_str());
                r.append("' cannot be empty");
            },
        }
        r
    }
}

/// The outcome of the checks on an input whose value, after any trimming, is
/// `value`.
pub open spec fn checked_spec(name: Seq<char>, value: Option<Seq<char>>, required: bool) -> Result<
    Option<Seq<char>>,
    InputErrorView,
> {
    if required && value is None {
        Err(InputErrorView::Required(name))
    } else if required && value.unwrap().len() == 0 {
        Err(InputErrorView::Empty(name))
    } else {
        Ok(value)
    }
}

/// An optional string as an optional sequence of characters.
pub open spec fn opt_view(v: Option<String>) -> Option<Seq<char>> {
    match v {
        Some(s) => Some(s@),
        None => None,
    }
}

/// The outcome of reading an input, as mathematical values.
pub open spec fn result_view(r: Result<Option<String>, InputError>) -> Result<Option<Seq<char>>, InputErrorView> {
    match r {
        Ok(v) => Ok(opt_view(v)),
        Err(e) => Err(e@),
    }
}

/// Checks an input's value, already trimmed if it is to be: a required input
/// must be given and not empty.
pub fn check_input(name: &str, value: Option<String>, required: bool) -> (r: Result<Option<String>, InputError>)
    ensures
        result_view(r) == checked_spec(name@, opt_view(value), required),
{
    if required {
        match &value {
            None => {
                return Err(InputError::Required(String::from_str(name)));
            },
            Some(v) => {
                if v.as_str().is_empty() {
                    return Err(InputError::Empty(String::from_str(name)));
                }
            },
        }
    }
    Ok(value)
}

/// The value of an input as read with `options`.
pub open spec fn input_spec(name: Seq<char>, raw: Option<Seq<char>>, options: InputOptions) -> Result<
    Option<Seq<char>>,
    InputErrorView,
> {
    let value = match raw {
        Some(v) => if options.trim_whitespace {
            Some(trimmed(v))
        } else {
            Some(v)
        },
        None => None,
    };
    checked_spec(name, value, options.required)
}

/// Reads input `name` whose raw value is `raw` (`None` when it is not set):
/// trims it if asked, then checks it.
pub fn get_input(name: &str, raw: Option<String>, options: &InputOptions) -> (r: Result<Option<String>, InputError>)
    ensures
        result_view(r) == input_spec(name@, opt_view(raw), *options),
{
    let value = match raw {
        Some(v) => if options.trim_whitespace {
            Some(trim_text(v.as_str()).to_owned())
        } else {
            Some(v)
        },
        None => None,
    };
    check_input(name, value, options.required)
}

/// Reads an optional input, trimmed. Never fails.
pub fn get_optional_input(name: &str, raw: Option<String>) -> (r: Result<Option<String>, InputError>)
    ensures
        r is Ok,
        result_view(r) == input_spec(name@, opt_view(raw), InputOptions { required: false, trim_whitespace: true }),
{
    get_input(name, raw, &InputOptions { required: false, trim_whitespace: true })
}

/// Reads a required input, trimmed: an error when it is not set or empty.
pub fn get_required_input(name: &str, raw: Option<String>) -> (r: Result<String, InputError>)
    ensures
        match r {
            Ok(v) => required_spec(name@, opt_view(raw)) == Ok::<Option<Seq<char>>, InputErrorView>(Some(v@)),
            Err(e) => required_spec(name@, opt_view(raw)) == Err::<Option<Seq<char>>, InputErrorView>(e@),
        },
        r is Err <==> (raw is None || trimmed(raw.unwrap()@).len() == 0),
{
    match get_input(name, raw, &InputOptions { required: true, trim_whitespace: true }) {
        Ok(Some(v)) => Ok(v),
        Ok(None) => Err(InputError::Required(String::from_str(name))),
        Err(e) => Err(e),
    }
}

/// The pieces of `s` between commas, in order; a string without commas is
/// one piece, the empty string included.
pub open spec fn split_commas(s: Seq<char>) -> Seq<Seq<char>>
    decreases s.len(),
{
    if s.len() == 0 {
        seq![Seq::empty()]
    } else {
        let prev = split_commas(s.drop_last());
        if s.last() == ',' {
            prev.push(Seq::empty())
        } else {
            prev.update(prev.len() - 1, prev.last().push(s.last()))
        }
    }
}

proof fn lemma_split_commas_not_empty(s: Seq<char>)
    ensures
        split_commas(s).len() >= 1,
    decreases s.len(),
{
    if s.len() > 0 {
        lemma_split_commas_not_empty(s.drop_last());
    }
}

/// The pieces that are not empty, in order.
pub open spec fn non_empty(items: Seq<Seq<char>>) -> Seq<Seq<char>>
    decreases items.len(),
{
    if items.len() == 0 {
        Seq::empty()
    } else if items.last().len() == 0 {
        non_empty(items.drop_last())
    } else {
        non_empty(items.drop_last()).push(items.last())
    }
}

/// The items of a list input whose value is `v`: the value trimmed, split at
/// commas, each piece trimmed, the empty ones left out.
pub open spec fn list_items(v: Seq<char>) -> Seq<Seq<char>> {
    non_empty(split_commas(trimmed(v)).map_values(|p: Seq<char>| trimmed(p)))
}

/// Splits `s` at every comma.
pub fn split_on_commas(s: &str) -> (r: Vec<String>)
    ensures
        r.deep_view() == split_commas(s@),
{
    let n = s.unicode_len();
    let mut pieces: Vec<String> = Vec::new();
    let mut start: usize = 0;
    let mut i: usize = 0;
    proof {
        assert(s@.take(0) =~= Seq::<char>::empty());
        assert(pieces.deep_view().push(s@.subrange(0, 0)) =~= seq![Seq::<char>::empty()]);
    }
    while i < n
        invariant
            n == s@.len(),
            start <= i <= n,
            split_commas(s@.take(i as int)) == pieces.deep_view().push(s@.subrange(start as int, i as int)),
        decreases n - i,
    {
        let c = s.get_char(i);
        proof {
            let t = s@.take(i as int + 1);
            assert(t.drop_last() =~= s@.take(i as int));
            assert(t.last() == c);
            lemma_split_commas_not_empty(s@.take(i as int));
        }
        if c == ',' {
            let piece = s.substring_char(start, i).to_owned();
            let ghost before = pieces.deep_view();
            pieces.push(piece);
            proof {
                assert(pieces.deep_view() =~= before.push(s@.subrange(start as int, i as int)));
                assert(s@.subrange(i as int + 1, i as int + 1) =~= Seq::<char>::empty());
            }
            start = i + 1;
        } else {
            proof {
                let prev = split_commas(s@.take(i as int));
                assert(s@.subrange(start as int, i as int + 1) =~= s@.subrange(start as int, i as int).push(c));
                assert(prev.update(prev.len() - 1, prev.last().push(c)) =~= pieces.deep_view().push(
                    s@.subrange(start as int, i as int + 1),
                ));
            }
        }
        i = i + 1;
    }
    let last = s.substring_char(start, n).to_owned();
    let ghost before = pieces.deep_view();
    pieces.push(last);
    proof {
        assert(s@.take(n as int) =~= s@);
        assert(pieces.deep_view() =~= before.push(s@.subrange(start as int, n as int)));
    }
    pieces
}

/// Trims each piece and keeps the ones left non-empty.
pub fn trimmed_non_empty(pieces: &Vec<String>) -> (r: Vec<String>)
    ensures
        r.deep_view() == non_empty(pieces.deep_view().map_values(|p: Seq<char>| trimmed(p))),
{
    let ghost all = pieces.deep_view().map_values(|p: Seq<char>| trimmed(p));
    let mut out: Vec<String> = Vec::new();
    let mut i: usize = 0;
    while i < pieces.len()
        invariant
            i <= pieces.len(),
            all == pieces.deep_view().map_values(|p: Seq<char>| trimmed(p)),
            out.deep_view() == non_empty(all.take(i as int)),
        decreases pieces.len() - i,
    {
        let t = trim_text(pieces[i].as_str()).to_owned();
        proof {
            assert(all.take(i as int + 1).drop_last() =~= all.take(i as int));
            assert(all.take(i as int + 1).last() == t@);
        }
        if !t.as_str().is_empty() {
            let ghost before = out.deep_view();
            out.push(t);
            proof {
                assert(out.deep_view() =~= before.push(all[i as int]));
            }
        }
        i = i + 1;
    }
    proof {
        assert(all.take(pieces.len() as int) =~= all);
    }
    out
}

/// The items of a list input whose raw value is `raw`.
pub open spec fn list_spec(raw: Option<Seq<char>>) -> Seq<Seq<char>> {
    match raw {
        Some(v) => list_items(v),
        None => Seq::empty(),
    }
}

/// The value of a required input whose raw value is `raw`.
pub open spec fn required_spec(name: Seq<char>, raw: Option<Seq<char>>) -> Result<Option<Seq<char>>, InputErrorView> {
    input_spec(name, raw, InputOptions { required: true, trim_whitespace: true })
}

/// Reads a list input: trimmed, split at commas, each item trimmed, empty
/// items left out; no items when it is not set. Never fails.
pub fn get_list_input(name: &str, raw: Option<String>) -> (r: Result<Vec<String>, InputError>)
    ensures
        r matches Ok(items) && items.deep_view() == list_spec(opt_view(raw)),
{
    match get_optional_input(name, raw) {
        Ok(Some(v)) => Ok(trimmed_non_empty(&split_on_commas(v.as_str()))),
        Ok(None) => Ok(Vec::new()),
        Err(e) => Err(e),
    }
}

} // verus!
