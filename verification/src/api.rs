//! The decision of the websocket API on a text frame of a control panel.
use vstd::prelude::*;

verus! {

/// The keep-alive frames that control panels send: `ping`, with or without a
/// trailing newline.
pub open spec fn is_keepalive(text: Seq<char>) -> bool {
    text == seq!['p', 'i', 'n', 'g'] || text == seq!['p', 'i', 'n', 'g', '\n']
}

/// Whether a text frame of a control panel is a keep-alive, which the API
/// drops instead of reading it as a request.
pub fn is_keepalive_text(text: &str) -> (b: bool)
    ensures
        b == is_keepalive(text@),
        b == (text@ == seq!['p', 'i', 'n', 'g'] || text@ == seq!['p', 'i', 'n', 'g', '\n']),
{
    let n = text.unicode_len();
    if n != 4 && n != 5 {
        return false;
    }
    let b = text.get_char(0) == 'p' && text.get_char(1) == 'i' && text.get_char(2) == 'n'
        && text.get_char(3) == 'g' && (n == 4 || text.get_char(4) == '\n');
    proof {
        if b {
            if n == 4 {
                assert(text@ =~= seq!['p', 'i', 'n', 'g']);
            } else {
                assert(text@ =~= seq!['p', 'i', 'n', 'g', '\n']);
            }
        } else {
            if text@ == seq!['p', 'i', 'n', 'g'] {
                assert(text@[0] == 'p' && text@[1] == 'i' && text@[2] == 'n' && text@[3] == 'g');
            }
            if text@ == seq!['p', 'i', 'n', 'g', '\n'] {
                assert(text@[0] == 'p' && text@[1] == 'i' && text@[2] == 'n' && text@[3] == 'g'
                    && text@[4] == '\n');
            }
        }
    }
    b
}

} // verus!
