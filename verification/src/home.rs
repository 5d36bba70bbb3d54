//! Where things are kept in the user's home directory.

use std::path::PathBuf;

use vstd::prelude::*;

use crate::text::views;

verus! {

/// The path type of the standard library, carried from `dirs` to where files are opened.
#[verifier::external_type_specification]
#[verifier::external_body]
pub struct ExPathBuf(std::path::PathBuf);

/// `dirs::home_dir`: the home directory of the user, where there is one. Which one it is rests on the
/// environment, so nothing is claimed of it.
pub assume_specification[ dirs::home_dir ]() -> Option<PathBuf>;

/// Where a path starts.
#[derive(Debug)]
pub enum Root {
    /// In the home directory of the user.
    Home(PathBuf),
    /// In the current directory.
    Here,
}

/// A place on disk: where its path starts, and the names on the way from there, one below the other.
#[derive(Debug)]
pub struct Place {
    pub root: Root,
    pub below: Vec<String>,
}

/// The names on the way to a place.
pub open spec fn way_to(place: Place) -> Seq<Seq<char>> {
    views(place.below@)
}

/// The way to a place in the program's own directory, from the home directory.
pub open spec fn own_way(name: Seq<char>) -> Seq<Seq<char>> {
    seq![".nanogpt-cli"@, name]
}

/// A place in the program's directory in the home directory `home`.
pub fn under_home(home: Option<PathBuf>, name: &str) -> (r: Result<Place, String>)
    ensures
        match home {
            Some(dir) => r matches Ok(place) && place.root == Root::Home(dir) && way_to(place)
                == own_way(name@),
            None => r matches Err(e) && e@ == "failed to resolve home directory"@,
        },
{
    match home {
        Some(dir) => {
            let below: Vec<String> = vec![".nanogpt-cli".to_owned(), name.to_owned()];
            assert(views(below@) =~= own_way(name@));
            Ok(Place { root: Root::Home(dir), below })
        },
        None => Err("failed to resolve home directory".to_owned()),
    }
}

/// Goes on to a name below a place.
pub fn go_below(place: Place, name: String) -> (r: Place)
    ensures
        r.root == place.root,
        way_to(r) == way_to(place).push(name@),
{
    let mut below: Vec<String> = place.below;
    let ghost before = below@;
    below.push(name);
    assert(views(below@) =~= views(before).push(name@));
    Place { root: place.root, below }
}

} // verus!
