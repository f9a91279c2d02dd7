//! Adding context to the error side of a `Result`.

use vstd::prelude::*;

use crate::text;

verus! {

/// Prefixes the error of a `Result` with context text, leaving a success
/// untouched.
pub trait ResultContextExt<T, E>: Sized {
    /// The relation between the input, the context text, and what `context`
    /// returns.
    spec fn context_post(self, ctx: Seq<char>, r: Self) -> bool;

    /// Wraps the error, if any, with the context text.
    fn context(self, ctx: &str) -> (r: Self)
        ensures
            self.context_post(ctx@, r),
    ;
}

impl<T> ResultContextExt<T, String> for Result<T, String> {
    /// A success passes through unchanged; an error `e` becomes the error
    /// whose text is the context, `": "`, then `e`.
    open spec fn context_post(self, ctx: Seq<char>, r: Self) -> bool {
        match self {
            Ok(v) => r == Ok::<T, String>(v),
            Err(e) => r matches Err(m) && m@ == ctx + ": "@ + e@,
        }
    }

    fn context(self, ctx: &str) -> (r: Self) {
        match self {
            Ok(v) => Ok(v),
            Err(e) => {
                let mut m = ctx.to_owned();
                text::push_str_onto(&mut m, ": ");
                text::push_str_onto(&mut m, e.as_str());
                proof {
                    assert(m@ =~= ctx@ + ": "@ + e@);
                }
                Err(m)
            },
        }
    }
}

} // verus!
