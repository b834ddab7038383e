use vstd::prelude::*;

verus! {

/// A path whose first component is `~` has that `~` replaced by the home
/// directory, when one is known; any other path stays as it is.
pub open spec fn tilde_expanded(path: Seq<char>, home: Option<Seq<char>>) -> Seq<char> {
    match home {
        Some(h) => if path.len() >= 1 && path[0] == '~' && (path.len() == 1 || path[1] == '/') {
            h + path.skip(1)
        } else {
            path
        },
        None => path,
    }
}

/// Expansion changes only a path whose first component is `~`, and only when a
/// home directory is known; an expanded path starts with the home directory and
/// ends with what followed the `~`.
pub proof fn lemma_tilde_expansion(path: Seq<char>, home: Option<Seq<char>>)
    ensures
        home is None ==> tilde_expanded(path, home) == path,
        path.len() == 0 || path[0] != '~' ==> tilde_expanded(path, home) == path,
        path.len() >= 2 && path[0] == '~' && path[1] != '/' ==> tilde_expanded(path, home) == path,
        home is Some && path.len() >= 1 && path[0] == '~' && (path.len() == 1 || path[1] == '/') ==> {
            let r = tilde_expanded(path, home);
            &&& r.len() == home->0.len() + path.len() - 1
            &&& r.take(home->0.len() as int) == home->0
            &&& r.skip(home->0.len() as int) == path.skip(1)
        },
{
    if home is Some && path.len() >= 1 && path[0] == '~' && (path.len() == 1 || path[1] == '/') {
        let h = home->0;
        let r = tilde_expanded(path, home);
        assert(r.take(h.len() as int) =~= h);
        assert(r.skip(h.len() as int) =~= path.skip(1));
    }
}

/// Expands a leading `~` (alone, or followed by `/`) to `home`.
pub fn tilde_expand(path: &str, home: Option<&str>) -> (r: String)
    ensures
        r@ == tilde_expanded(
            path@,
            match home {
                Some(h) => Some(h@),
                None => None,
            },
        ),
{
    match home {
        Some(h) => {
            let n = path.unicode_len();
            if n >= 1 && path.get_char(0) == '~' && (n == 1 || path.get_char(1) == '/') {
                let rest = path.substring_char(1, n);
                let mut expanded = String::from_str(h);
                expanded.append(rest);
                expanded
            } else {
                String::from_str(path)
            }
        },
        None => String::from_str(path),
    }
}

} // verus!
