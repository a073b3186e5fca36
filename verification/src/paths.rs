use vstd::prelude::*;
use vstd::string::StringExecFns;

verus! {

/// Where the notes database lives: the explicit path when one was given,
/// otherwise the home directory; with the default file name appended below
/// a separator when the chosen location is a directory.
pub open spec fn resolved_location(
    explicit: Option<Seq<char>>,
    home: Seq<char>,
    chosen_is_dir: bool,
    default_name: Seq<char>,
) -> Seq<char> {
    let chosen = match explicit {
        Some(p) => p,
        None => home,
    };
    if chosen_is_dir {
        chosen + "/"@ + default_name
    } else {
        chosen
    }
}

/// Resolves the store location from its inputs alone: the explicit path if
/// any, the home directory, whether the chosen one names a directory, and
/// the default file name to use inside a directory.
pub fn resolve_location(
    explicit: Option<String>,
    home: String,
    chosen_is_dir: bool,
    default_name: &str,
) -> (r: String)
    ensures
        r@ == resolved_location(
            (match explicit {
                Some(p) => Some(p@),
                None => None,
            }),
            home@,
            chosen_is_dir,
            default_name@,
        ),
{
    let chosen = match explicit {
        Some(p) => p,
        None => home,
    };
    if chosen_is_dir {
        let with_sep = chosen.concat("/");
        with_sep.concat(default_name)
    } else {
        chosen
    }
}

} // verus!
