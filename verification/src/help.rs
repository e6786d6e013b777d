//! The built-in help screen: one logical line holding the whole help
//! block.

use vstd::prelude::*;
use vstd::string::*;

verus! {

/// The help block's contents.
pub open spec fn help_text_v() -> Seq<char> {
    "\n        least - a pager\n\n        Usage: least [-h, --help | filename]\n\n           Controls:\n               - q - Quit\n               - j, Down - Down one line\n               - k, Up - Up one line\n               - d, PgDn - Down half a screen\n               - u, PgUp - Up half a screen\n               - g - Jump to top of file\n               - / - Forward search\n               - ? - Backward search\n               - n - Next search result\n               - N - Last search result\n               - o - Open a new file\n               - h - Open help screen\n"@
}

/// The help block is far shorter than any screen column index can
/// overflow.
pub proof fn lemma_help_text_len()
    ensures
        help_text_v().len() <= i32::MAX,
{
    reveal_strlit(
        "\n        least - a pager\n\n        Usage: least [-h, --help | filename]\n\n           Controls:\n               - q - Quit\n               - j, Down - Down one line\n               - k, Up - Up one line\n               - d, PgDn - Down half a screen\n               - u, PgUp - Up half a screen\n               - g - Jump to top of file\n               - / - Forward search\n               - ? - Backward search\n               - n - Next search result\n               - N - Last search result\n               - o - Open a new file\n               - h - Open help screen\n",
    );
}

/// Builds the help block.
pub fn help_text() -> (r: String)
    ensures
        r@ == help_text_v(),
{
    String::from_str(
        "\n        least - a pager\n\n        Usage: least [-h, --help | filename]\n\n           Controls:\n               - q - Quit\n               - j, Down - Down one line\n               - k, Up - Up one line\n               - d, PgDn - Down half a screen\n               - u, PgUp - Up half a screen\n               - g - Jump to top of file\n               - / - Forward search\n               - ? - Backward search\n               - n - Next search result\n               - N - Last search result\n               - o - Open a new file\n               - h - Open help screen\n",
    )
}

} // verus!
