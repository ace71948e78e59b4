//! The text to embed: one string, or a list of strings.
use vstd::prelude::*;
use crate::json::{comma_join, json_array_text, json_string_text, push_char, push_json_string};

verus! {

/// The text to embed. On the wire a single text is a bare JSON string and a
/// list is a bare JSON array of strings; no tag tells them apart.
pub enum Input {
    One(String),
    Many(Vec<String>),
}

/// What an input holds, as characters.
pub enum InputView {
    One(Seq<char>),
    Many(Seq<Seq<char>>),
}

impl View for Input {
    type V = InputView;

    open spec fn view(&self) -> InputView {
        match self {
            Input::One(s) => InputView::One(s@),
            Input::Many(v) => InputView::Many(v@.map_values(|s: String| s@)),
        }
    }
}

/// The JSON text of an input.
pub open spec fn input_text(i: InputView) -> Seq<char> {
    match i {
        InputView::One(s) => json_string_text(s),
        InputView::Many(items) => json_array_text(items),
    }
}

impl From<&str> for Input {
    fn from(s: &str) -> (r: Input)
        ensures
            r@ == InputView::One(s@),
    {
        Input::One(s.to_owned())
    }
}

impl vstd::std_specs::convert::FromSpecImpl<&str> for Input {
    open spec fn obeys_from_spec() -> bool {
        false
    }

    open spec fn from_spec(s: &str) -> Input {
        arbitrary()
    }
}

impl From<String> for Input {
    fn from(s: String) -> (r: Input)
        ensures
            r == Input::One(s),
    {
        Input::One(s)
    }
}

impl vstd::std_specs::convert::FromSpecImpl<String> for Input {
    open spec fn obeys_from_spec() -> bool {
        true
    }

    open spec fn from_spec(s: String) -> Input {
        Input::One(s)
    }
}

impl From<Vec<&str>> for Input {
    fn from(v: Vec<&str>) -> (r: Input)
        ensures
            r@ == InputView::Many(v@.map_values(|s: &str| s@)),
    {
        let mut items: Vec<String> = Vec::new();
        let n: usize = v.len();
        for k in 0..n
            invariant
                n == v@.len(),
                items@.len() == k,
                forall|j: int| 0 <= j < k ==> (#[trigger] items@[j])@ == v@[j]@,
        {
            items.push(v[k].to_owned());
        }
        let r = Input::Many(items);
        assert(r@->Many_0 =~= v@.map_values(|s: &str| s@));
        r
    }
}

impl vstd::std_specs::convert::FromSpecImpl<Vec<&str>> for Input {
    open spec fn obeys_from_spec() -> bool {
        false
    }

    open spec fn from_spec(v: Vec<&str>) -> Input {
        arbitrary()
    }
}

impl From<Vec<String>> for Input {
    fn from(v: Vec<String>) -> (r: Input)
        ensures
            r == Input::Many(v),
    {
        Input::Many(v)
    }
}

impl vstd::std_specs::convert::FromSpecImpl<Vec<String>> for Input {
    open spec fn obeys_from_spec() -> bool {
        true
    }

    open spec fn from_spec(v: Vec<String>) -> Input {
        Input::Many(v)
    }
}

impl Input {
    /// Appends the JSON text of this input to `out`.
    pub(crate) fn push_json(&self, out: &mut String)
        ensures
            final(out)@ == old(out)@ + input_text(self@),
    {
        match self {
            Input::One(s) => push_json_string(out, s.as_str()),
            Input::Many(v) => {
                let ghost start = out@;
                let ghost items = v@.map_values(|s: String| s@);
                let ghost parts = items.map_values(|t: Seq<char>| json_string_text(t));
                push_char(out, '[');
                let n: usize = v.len();
                for k in 0..n
                    invariant
                        n == v@.len(),
                        items == v@.map_values(|s: String| s@),
                        parts == items.map_values(|t: Seq<char>| json_string_text(t)),
                        out@ == start + seq!['['] + comma_join(parts.take(k as int)),
                {
                    proof {
                        assert(parts.take(k + 1).drop_last() =~= parts.take(k as int));
                    }
                    if k > 0 {
                        push_char(out, ',');
                    }
                    push_json_string(out, v[k].as_str());
                    proof {
                        if k == 0 {
                            assert(parts.take(1) =~= seq![parts[0]]);
                        }
                        assert(out@ =~= start + seq!['['] + comma_join(parts.take(k + 1)));
                    }
                }
                assert(parts.take(n as int) =~= parts);
                push_char(out, ']');
                assert(out@ =~= start + input_text(self@));
            },
        }
    }
}

/// A single text is written as a bare JSON string literal, never as an
/// array of one element.
pub proof fn lemma_one_is_bare_string(s: Seq<char>)
    ensures
        input_text(InputView::One(s)) == json_string_text(s),
        input_text(InputView::One(s))[0] == '"',
        input_text(InputView::One(s)) != input_text(InputView::Many(seq![s])),
{
    let one = input_text(InputView::One(s));
    let many = input_text(InputView::Many(seq![s]));
    assert(one[0] == '"');
    assert(many[0] == '[');
}

/// A non-empty list of texts is written as a bare JSON array holding the
/// string literal of each text, in the order of the list.
pub proof fn lemma_many_is_array(items: Seq<Seq<char>>)
    requires
        items.len() > 0,
    ensures
        input_text(InputView::Many(items)) == seq!['['] + comma_join(
            items.map_values(|t: Seq<char>| json_string_text(t)),
        ) + seq![']'],
        input_text(InputView::Many(items))[0] == '[',
{
}

} // verus!
