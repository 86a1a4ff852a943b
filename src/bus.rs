use vstd::prelude::*;

use crate::error::MprisError;

verus! {

/// Well-known name prefix under which the daemon registers on the bus.
pub open spec fn daemon_prefix() -> Seq<char> {
    "org.mpris.MediaPlayer2.spotifyd"@
}

pub open spec fn name_views(names: Seq<String>) -> Seq<Seq<char>> {
    names.map_values(|n: String| n@)
}

/// Some name in `names` starts with `prefix`.
pub open spec fn any_has_prefix(names: Seq<String>, prefix: Seq<char>) -> bool {
    exists|i: int| 0 <= i < names.len() && #[trigger] prefix.is_prefix_of(names[i]@)
}

/// The names in `names` that start with `prefix`, in their order.
pub open spec fn names_with_prefix(names: Seq<String>, prefix: Seq<char>) -> Seq<Seq<char>> {
    name_views(names).filter(|n: Seq<char>| prefix.is_prefix_of(n))
}

/// Whether `s` starts with `prefix`.
pub fn has_prefix(s: &str, prefix: &str) -> (r: bool)
    ensures
        r == prefix@.is_prefix_of(s@),
{
    let n = prefix.unicode_len();
    if n > s.unicode_len() {
        return false;
    }
    let mut i: usize = 0;
    while i < n
        invariant
            n == prefix@.len(),
            n <= s@.len(),
            i <= n,
            forall|j: int| 0 <= j < i ==> prefix@[j] == s@[j],
        decreases n - i,
    {
        if prefix.get_char(i) != s.get_char(i) {
            assert(prefix@[i as int] != s@.subrange(0, n as int)[i as int]);
            return false;
        }
        i = i + 1;
    }
    assert(prefix@ =~= s@.subrange(0, n as int));
    true
}

/// Whether any of the registered bus names belongs to the daemon.
pub fn check_dbus_responsive(names: &Vec<String>) -> (r: bool)
    ensures
        r == any_has_prefix(names@, daemon_prefix()),
{
    let mut i: usize = 0;
    while i < names.len()
        invariant
            i <= names@.len(),
            forall|j: int| 0 <= j < i ==> !#[trigger] daemon_prefix().is_prefix_of(names@[j]@),
        decreases names@.len() - i,
    {
        if has_prefix(names[i].as_str(), "org.mpris.MediaPlayer2.spotifyd") {
            return true;
        }
        i = i + 1;
    }
    false
}

/// The daemon's registered bus names, in the order the bus listed them.
pub fn daemon_service_names(names: &Vec<String>) -> (r: Vec<String>)
    ensures
        name_views(r@) == names_with_prefix(names@, daemon_prefix()),
{
    let mut out: Vec<String> = Vec::new();
    let mut i: usize = 0;
    while i < names.len()
        invariant
            i <= names@.len(),
            name_views(out@) == names_with_prefix(names@.subrange(0, i as int), daemon_prefix()),
        decreases names@.len() - i,
    {
        let ghost before = names@.subrange(0, i as int);
        let ghost after = names@.subrange(0, i + 1);
        assert(name_views(after).drop_last() =~= name_views(before));
        assert(name_views(after).last() == names@[i as int]@);
        reveal(Seq::filter);
        if has_prefix(names[i].as_str(), "org.mpris.MediaPlayer2.spotifyd") {
            out.push(names[i].clone());
            assert(name_views(out@) =~= name_views(before).filter(
                |n: Seq<char>| daemon_prefix().is_prefix_of(n),
            ).push(names@[i as int]@));
        } else {
            assert(name_views(out@) =~= name_views(before).filter(
                |n: Seq<char>| daemon_prefix().is_prefix_of(n),
            ));
        }
        i = i + 1;
    }
    assert(names@.subrange(0, names@.len() as int) =~= names@);
    out
}

/// Picks the player to bind: the first registered name under the daemon's prefix.
/// Any other player, however compliant with the protocol, is refused.
pub fn discover_player(names: &Vec<String>) -> (r: Result<String, MprisError>)
    ensures
        match r {
            Ok(n) => exists|i: int|
                0 <= i < names@.len() && n@ == names@[i]@ && daemon_prefix().is_prefix_of(
                    names@[i]@,
                ) && forall|j: int| 0 <= j < i ==> !#[trigger] daemon_prefix().is_prefix_of(names@[j]@),
            Err(e) => e == MprisError::PlayerNotFound && !any_has_prefix(names@, daemon_prefix()),
        },
{
    let mut i: usize = 0;
    while i < names.len()
        invariant
            i <= names@.len(),
            forall|j: int| 0 <= j < i ==> !#[trigger] daemon_prefix().is_prefix_of(names@[j]@),
        decreases names@.len() - i,
    {
        if has_prefix(names[i].as_str(), "org.mpris.MediaPlayer2.spotifyd") {
            return Ok(names[i].clone());
        }
        i = i + 1;
    }
    Err(MprisError::PlayerNotFound)
}

} // verus!
