//! Dialog rendering requests: which characters and backgrounds exist, and
//! the scrubbing applied to the text before it is injected into the page.

use vstd::prelude::*;

use crate::errors::ServerError;
use crate::strutil::{spec_contains_string, string_vec_contains};

verus! {

/// A request to render one dialog image.
#[derive(Debug, Clone)]
pub struct DialogInfo {
    pub id: Option<i64>,
    pub background: String,
    pub character: String,
    pub text: String,
}

/// Whether a dialog request names a known character and background and
/// carries some text.
pub open spec fn dialog_ok(
    info: DialogInfo,
    characters: Seq<String>,
    backgrounds: Seq<String>,
) -> bool {
    &&& spec_contains_string(characters, info.character@)
    &&& spec_contains_string(backgrounds, info.background@)
    &&& info.text@.len() > 0
}

/// The guard a dialog request must pass: the character and background must
/// be installed, and the text must not be empty.
pub fn validate_dialog(
    info: &DialogInfo,
    characters: &Vec<String>,
    backgrounds: &Vec<String>,
) -> (r: Result<(), ServerError>)
    ensures
        r is Ok <==> dialog_ok(*info, characters@, backgrounds@),
        !dialog_ok(*info, characters@, backgrounds@) ==> (r matches Err(e) && e.error_message@
            == "The specified character/background doesn't exist, or the text is empty."@),
{
    if !string_vec_contains(characters, info.character.as_str()) || !string_vec_contains(
        backgrounds,
        info.background.as_str(),
    ) || info.text.as_str().is_empty() {
        Err(
            ServerError::with_message(
                "The specified character/background doesn't exist, or the text is empty.",
            ),
        )
    } else {
        Ok(())
    }
}

/// A character is kept unless the page's script would read it as markup.
pub open spec fn dialog_char_allowed() -> spec_fn(char) -> bool {
    |c: char| c != '$' && c != '{' && c != '}' && c != '`'
}

/// Scrubs the dialog text: the characters the page's script would read as
/// markup are dropped, the rest kept in order.
pub fn sanitize_dialog_text(text: &str) -> (r: Vec<char>)
    ensures
        r@ == text@.filter(dialog_char_allowed()),
{
    broadcast use vstd::prelude::Seq::filter_distributes_over_add;

    let len = text.unicode_len();
    let mut out: Vec<char> = Vec::new();
    let mut i: usize = 0;
    proof {
        assert(text@.subrange(0, 0) =~= Seq::<char>::empty());
        assert(Seq::<char>::empty().filter(dialog_char_allowed()) =~= Seq::<char>::empty());
    }
    while i < len
        invariant
            i <= len,
            len == text@.len(),
            out@ == text@.subrange(0, i as int).filter(dialog_char_allowed()),
        decreases len - i,
    {
        let ghost pre = text@.subrange(0, i as int);
        let ghost next = text@.subrange(0, i as int + 1);
        proof {
            reveal_with_fuel(Seq::<_>::filter, 2);
            assert(next =~= pre + seq![text@[i as int]]);
            assert(seq![text@[i as int]].drop_last() =~= Seq::<char>::empty());
        }
        let c = text.get_char(i);
        if c != '$' && c != '{' && c != '}' && c != '`' {
            proof {
                reveal_with_fuel(Seq::<_>::filter, 2);
                assert((dialog_char_allowed())(text@[i as int]));
                assert(seq![text@[i as int]].filter(dialog_char_allowed()) =~= seq![
                    text@[i as int],
                ]);
            }
            out.push(c);
        } else {
            proof {
                reveal_with_fuel(Seq::<_>::filter, 2);
                assert(!(dialog_char_allowed())(text@[i as int]));
                assert(seq![text@[i as int]].filter(dialog_char_allowed()) =~= Seq::<
                    char,
                >::empty());
                assert(out@ + Seq::<char>::empty() =~= out@);
            }
        }
        i += 1;
    }
    proof {
        assert(text@.subrange(0, text@.len() as int) =~= text@);
    }
    out
}

} // verus!
