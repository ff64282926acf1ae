use vstd::prelude::*;

use crate::error::CoreError;

verus! {

/// The prompt a single request is made from: the given text, followed by a
/// line break and the line read from standard input when one was read.
pub open spec fn prompt_of(text: Option<String>, stdin_line: Option<String>) -> Seq<char> {
    let t = match text {
        Some(s) => s@,
        None => Seq::empty(),
    };
    match stdin_line {
        Some(b) => t + "\n"@ + b@,
        None => t,
    }
}

/// The prompt from the text argument and the line read from standard input,
/// if the caller read one. An empty prompt is refused.
pub fn string_or_stdin(text: &Option<String>, stdin_line: &Option<String>) -> (r: Result<
    String,
    CoreError,
>)
    ensures
        prompt_of(*text, *stdin_line).len() == 0 <==> r is Err,
        r matches Ok(p) ==> p@ == prompt_of(*text, *stdin_line),
        r matches Err(e) ==> e == CoreError::NoPrompt,
{
    let mut prompt = match text {
        Some(s) => s.clone(),
        None => String::new(),
    };
    match stdin_line {
        Some(b) => {
            prompt.append("\n");
            prompt.append(b.as_str());
        },
        None => {},
    }
    proof {
        reveal_strlit("\n");
    }
    if prompt.as_str().is_empty() {
        Err(CoreError::NoPrompt)
    } else {
        Ok(prompt)
    }
}

} // verus!
