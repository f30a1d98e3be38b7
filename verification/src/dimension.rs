use vstd::prelude::*;
use vstd::string::*;
use crate::error::RequestError;
use crate::metrics_obj::MetricsObj;
use crate::text::pairs_text;

verus! {

/// One key/value filter that narrows a query.
#[derive(Debug)]
pub struct Dimension {
    pub name: String,
    pub value: String,
}

impl View for Dimension {
    type V = (Seq<char>, Seq<char>);

    open spec fn view(&self) -> (Seq<char>, Seq<char>) {
        (self.name@, self.value@)
    }
}

/// The text of each dimension, in order.
pub open spec fn dims_text(v: Seq<Dimension>) -> Seq<(Seq<char>, Seq<char>)> {
    v.map_values(|d: Dimension| d@)
}

/// `token` is `name`, the first `=` of the token, and `value`.
pub open spec fn splits_at_first_equals(token: Seq<char>, name: Seq<char>, value: Seq<char>) -> bool {
    &&& token == name + seq!['='] + value
    &&& !name.contains('=')
}

/// Every token holds an `=`.
pub open spec fn all_have_equals(tokens: Seq<String>) -> bool {
    forall|i: int| 0 <= i < tokens.len() ==> (#[trigger] tokens[i])@.contains('=')
}

/// Each dimension is its token split at the first `=`, position by position.
pub open spec fn dimensions_match(tokens: Seq<String>, dims: Seq<Dimension>) -> bool {
    &&& dims.len() == tokens.len()
    &&& forall|i: int|
        0 <= i < tokens.len() ==> splits_at_first_equals(
            (#[trigger] tokens[i])@,
            dims[i].name@,
            dims[i].value@,
        )
}

/// The dimension tokens among the flags; none where the flag was not given.
pub open spec fn flag_tokens(args: &MetricsObj) -> Seq<String> {
    match args.dimensions {
        Some(tokens) => tokens@,
        None => Seq::empty(),
    }
}

/// A token splits at its first `=` in one way only.
pub proof fn lemma_split_is_unique(
    token: Seq<char>,
    name: Seq<char>,
    value: Seq<char>,
    other_name: Seq<char>,
    other_value: Seq<char>,
)
    requires
        splits_at_first_equals(token, name, value),
        splits_at_first_equals(token, other_name, other_value),
    ensures
        name == other_name,
        value == other_value,
{
    let a = name.len() as int;
    let b = other_name.len() as int;
    assert(token[a] == '=');
    assert(token[b] == '=');
    if a < b {
        assert(other_name[a] == token[a]);
        assert(other_name.contains('='));
    }
    if b < a {
        assert(name[b] == token[b]);
        assert(name.contains('='));
    }
    assert(name =~= token.subrange(0, a));
    assert(other_name =~= token.subrange(0, b));
    assert(value =~= token.subrange(a + 1, token.len() as int));
    assert(other_value =~= token.subrange(b + 1, token.len() as int));
}

/// Reads one `key=value` token. The key is what stands before the first `=`,
/// the value all that follows it; a token without `=` is refused.
pub fn parse_dimension(token: &str) -> (r: Result<Dimension, RequestError>)
    ensures
        r is Err <==> !token@.contains('='),
        match r {
            Ok(d) => splits_at_first_equals(token@, d.name@, d.value@),
            Err(e) => e == RequestError::InvalidDimensionToken,
        },
{
    let n = token.unicode_len();
    let mut i: usize = 0;
    while i < n
        invariant
            0 <= i <= n,
            n == token@.len(),
            forall|j: int| 0 <= j < i ==> token@[j] != '=',
        decreases n - i,
    {
        if token.get_char(i) == '=' {
            let name = token.substring_char(0, i).to_owned();
            let value = token.substring_char(i + 1, n).to_owned();
            proof {
                assert(token@ =~= name@ + seq!['='] + value@);
                assert(token@[i as int] == '=');
                if name@.contains('=') {
                    let j = choose|j: int| 0 <= j < name@.len() && name@[j] == '=';
                    assert(token@[j] == name@[j]);
                }
            }
            return Ok(Dimension { name, value });
        }
        i = i + 1;
    }
    proof {
        if token@.contains('=') {
            let j = choose|j: int| 0 <= j < token@.len() && token@[j] == '=';
            assert(token@[j] != '=');
        }
    }
    Err(RequestError::InvalidDimensionToken)
}

/// Tokens that were split at an `=` each hold one.
pub proof fn lemma_matched_tokens_have_equals(tokens: Seq<String>, dims: Seq<Dimension>)
    requires
        dimensions_match(tokens, dims),
    ensures
        all_have_equals(tokens),
{
    assert forall|i: int| 0 <= i < tokens.len() implies (#[trigger] tokens[i])@.contains('=') by {
        let t = tokens[i]@;
        assert(t[dims[i].name@.len() as int] == '=');
    }
}

/// Reads a list of `key=value` tokens, keeping their order. One token
/// without `=` refuses the whole list.
pub fn parse_dimensions(tokens: &Vec<String>) -> (r: Result<Vec<Dimension>, RequestError>)
    ensures
        r is Err <==> !all_have_equals(tokens@),
        match r {
            Ok(dims) => dimensions_match(tokens@, dims@),
            Err(e) => e == RequestError::InvalidDimensionToken,
        },
{
    let mut dims: Vec<Dimension> = Vec::new();
    let mut i: usize = 0;
    while i < tokens.len()
        invariant
            0 <= i <= tokens.len(),
            dimensions_match(tokens@.subrange(0, i as int), dims@),
        decreases tokens.len() - i,
    {
        match parse_dimension(tokens[i].as_str()) {
            Ok(d) => {
                let ghost before = dims@;
                dims.push(d);
                proof {
                    let done = tokens@.subrange(0, i + 1);
                    assert forall|j: int| 0 <= j < done.len() implies splits_at_first_equals(
                        (#[trigger] done[j])@,
                        dims@[j].name@,
                        dims@[j].value@,
                    ) by {
                        if j < i {
                            assert(tokens@.subrange(0, i as int)[j] == done[j]);
                            assert(dims@[j] == before[j]);
                        }
                    }
                }
            },
            Err(e) => {
                return Err(e);
            },
        }
        i = i + 1;
    }
    proof {
        assert(tokens@.subrange(0, i as int) =~= tokens@);
        lemma_matched_tokens_have_equals(tokens@, dims@);
    }
    Ok(dims)
}

/// The dimension filters that the flags ask for: none where the flag was not
/// given, else each token read in order.
pub fn build_dimensions_vec(args: &MetricsObj) -> (r: Result<Vec<Dimension>, RequestError>)
    ensures
        r is Err <==> !all_have_equals(flag_tokens(args)),
        match r {
            Ok(dims) => dimensions_match(flag_tokens(args), dims@),
            Err(e) => e == RequestError::InvalidDimensionToken,
        },
{
    match &args.dimensions {
        Some(tokens) => parse_dimensions(tokens),
        None => {
            assert(all_have_equals(flag_tokens(args)));
            Ok(Vec::new())
        },
    }
}

/// Takes the dimensions of a decoded mapping as they stand, in order.
pub fn dimensions_from_pairs(pairs: &Vec<(String, String)>) -> (dims: Vec<Dimension>)
    ensures
        dims_text(dims@) == pairs_text(pairs@),
{
    let mut dims: Vec<Dimension> = Vec::new();
    let mut i: usize = 0;
    while i < pairs.len()
        invariant
            0 <= i <= pairs.len(),
            dims@.len() == i,
            forall|j: int| 0 <= j < i ==> (#[trigger] dims@[j])@ == (pairs@[j].0@, pairs@[j].1@),
        decreases pairs.len() - i,
    {
        let pair = &pairs[i];
        dims.push(Dimension { name: pair.0.clone(), value: pair.1.clone() });
        i = i + 1;
    }
    proof {
        assert(dims_text(dims@) =~= pairs_text(pairs@));
    }
    dims
}

} // verus!
