//! Game profiles and the matcher that picks the running game out of a
//! process snapshot.

use crate::snapshot::ProcessSnapshot;
use crate::tracker::GameView;
use vstd::prelude::*;

verus! {

/// A game profile as contracts see it: the identifier and the set of
/// executable names any of which shows that the game runs.
pub struct GameProfileView {
    pub id: Seq<char>,
    pub executables: Set<Seq<char>>,
}

/// A known game: its identifier and its candidate executable names, in
/// lowercase. Two profiles may name the same executable; the one declared
/// first then wins.
#[derive(Clone, Debug, PartialEq, Eq)]
pub struct GameProfile {
    pub id: String,
    pub executables: Vec<String>,
}

impl View for GameProfile {
    type V = GameProfileView;

    open spec fn view(&self) -> GameProfileView {
        GameProfileView { id: self.id@, executables: self.executables.deep_view().to_set() }
    }
}

impl GameProfileView {
    /// Whether the game runs according to `snapshot`: at least one of its
    /// executables is among the captured names.
    pub open spec fn runs_in(self, snapshot: Set<Seq<char>>) -> bool {
        exists|name: Seq<char>| #[trigger] self.executables.contains(name) && snapshot.contains(name)
    }
}

/// The profiles of a table as contracts see them, in declaration order.
pub open spec fn profile_views(profiles: Seq<GameProfile>) -> Seq<GameProfileView> {
    Seq::new(profiles.len(), |i: int| profiles[i]@)
}

/// The game that `snapshot` shows to be running: the identifier of the first
/// profile, in declaration order, that runs in it; `None` when no profile
/// does.
pub open spec fn matched_game(snapshot: Set<Seq<char>>, profiles: Seq<GameProfileView>) -> GameView
    decreases profiles.len(),
{
    if profiles.len() == 0 {
        None
    } else if profiles[0].runs_in(snapshot) {
        Some(profiles[0].id)
    } else {
        matched_game(snapshot, profiles.drop_first())
    }
}

/// What `matched_game` picks, said without recursion: the identifier of the
/// profile at the least index that runs in the snapshot, or nothing when no
/// profile runs in it. In particular a game that is matched is one of the
/// declared ones.
pub proof fn lemma_matched_game(snapshot: Set<Seq<char>>, profiles: Seq<GameProfileView>)
    ensures
        match matched_game(snapshot, profiles) {
            Some(id) => exists|i: int|
                0 <= i < profiles.len() && (#[trigger] profiles[i]).id == id && profiles[i].runs_in(
                    snapshot,
                ) && forall|j: int| 0 <= j < i ==> !(#[trigger] profiles[j]).runs_in(snapshot),
            None => forall|j: int|
                0 <= j < profiles.len() ==> !(#[trigger] profiles[j]).runs_in(snapshot),
        },
    decreases profiles.len(),
{
    if profiles.len() == 0 {
    } else if profiles[0].runs_in(snapshot) {
        assert(forall|j: int| 0 <= j < 0 ==> !(#[trigger] profiles[j]).runs_in(snapshot));
    } else {
        let rest = profiles.drop_first();
        lemma_matched_game(snapshot, rest);
        match matched_game(snapshot, rest) {
            Some(id) => {
                let i = choose|i: int|
                    0 <= i < rest.len() && (#[trigger] rest[i]).id == id && rest[i].runs_in(
                        snapshot,
                    ) && forall|j: int| 0 <= j < i ==> !(#[trigger] rest[j]).runs_in(snapshot);
                assert forall|j: int| 0 <= j < i + 1 implies !(#[trigger] profiles[j]).runs_in(
                    snapshot,
                ) by {
                    if j > 0 {
                        assert(profiles[j] == rest[j - 1]);
                    }
                }
                assert(profiles[i + 1] == rest[i]);
            },
            None => {
                assert forall|j: int| 0 <= j < profiles.len() implies !(
                #[trigger] profiles[j]).runs_in(snapshot) by {
                    if j > 0 {
                        assert(profiles[j] == rest[j - 1]);
                    }
                }
            },
        }
    }
}

/// Matching is a function of what the snapshot holds and of the profile
/// table, and of nothing else: snapshots with the same names, and tables
/// whose profiles agree in identifier and executable set position by
/// position, give the same game.
pub proof fn lemma_matched_game_deterministic(
    snapshot: Set<Seq<char>>,
    profiles: Seq<GameProfileView>,
    other_snapshot: Set<Seq<char>>,
    other_profiles: Seq<GameProfileView>,
)
    requires
        forall|name: Seq<char>| snapshot.contains(name) == other_snapshot.contains(name),
        profiles.len() == other_profiles.len(),
        forall|i: int|
            0 <= i < profiles.len() ==> (#[trigger] profiles[i]).id == other_profiles[i].id,
        forall|i: int, name: Seq<char>|
            0 <= i < profiles.len() ==> (#[trigger] profiles[i].executables.contains(name))
                == other_profiles[i].executables.contains(name),
    ensures
        matched_game(snapshot, profiles) == matched_game(other_snapshot, other_profiles),
{
    assert(snapshot =~= other_snapshot);
    assert forall|i: int| 0 <= i < profiles.len() implies profiles[i] == other_profiles[i] by {
        assert(profiles[i].id == other_profiles[i].id);
        assert forall|name: Seq<char>|
            profiles[i].executables.contains(name) == other_profiles[i].executables.contains(
                name,
            ) by {
            assert(profiles[i].executables.contains(name) == other_profiles[i].executables.contains(
                name,
            ));
        }
        assert(profiles[i].executables =~= other_profiles[i].executables);
    }
    assert(profiles =~= other_profiles);
}

impl GameProfile {
    /// A profile for game `id` with the given candidate executables.
    pub fn new(id: String, executables: Vec<String>) -> (profile: GameProfile)
        ensures
            profile.id == id,
            profile.executables == executables,
    {
        GameProfile { id, executables }
    }

    /// Whether the game runs according to `snapshot`.
    pub fn runs_in(&self, snapshot: &ProcessSnapshot) -> (runs: bool)
        ensures
            runs == self@.runs_in(snapshot@),
    {
        let ghost names = self.executables.deep_view();
        let mut i: usize = 0;
        while i < self.executables.len()
            invariant
                i <= self.executables.len(),
                names == self.executables.deep_view(),
                forall|j: int| 0 <= j < i ==> !snapshot@.contains(#[trigger] names[j]),
            decreases self.executables.len() - i,
        {
            if snapshot.contains(self.executables[i].as_str()) {
                assert(names[i as int] == self.executables[i as int]@);
                assert(names.contains(names[i as int]));
                assert(self@.executables.contains(names[i as int]) && snapshot@.contains(
                    names[i as int],
                ));
                return true;
            }
            assert(names[i as int] == self.executables[i as int]@);
            i = i + 1;
        }
        assert forall|name: Seq<char>| #[trigger]
            self@.executables.contains(name) implies !snapshot@.contains(name) by {
            let j = choose|j: int| 0 <= j < names.len() && names[j] == name;
            assert(!snapshot@.contains(names[j]));
        }
        false
    }
}

/// The game matcher. Goes through `profiles` in declaration order and gives
/// the identifier of the first one with an executable in `procs`; `None` when
/// there is none. The result depends on what the snapshot holds and on the
/// table alone, so the same inputs always give the same game.
#[verifier::loop_isolation(false)]
pub fn detect_game(procs: &ProcessSnapshot, profiles: &Vec<GameProfile>) -> (game: Option<String>)
    ensures
        game.deep_view() == matched_game(procs@, profile_views(profiles@)),
        match game {
            Some(id) => exists|i: int|
                0 <= i < profiles.len() && (#[trigger] profiles[i]).id@ == id@
                    && profiles[i]@.runs_in(procs@) && forall|j: int|
                    0 <= j < i ==> !(#[trigger] profiles[j])@.runs_in(procs@),
            None => forall|j: int|
                0 <= j < profiles.len() ==> !(#[trigger] profiles[j])@.runs_in(procs@),
        },
{
    let ghost views = profile_views(profiles@);
    proof {
        lemma_matched_game(procs@, views);
        match matched_game(procs@, views) {
            Some(id) => {
                let i = choose|i: int|
                    0 <= i < views.len() && (#[trigger] views[i]).id == id && views[i].runs_in(
                        procs@,
                    ) && forall|j: int| 0 <= j < i ==> !(#[trigger] views[j]).runs_in(procs@);
                assert(views[i] == profiles[i]@);
                assert forall|j: int| 0 <= j < i implies !(#[trigger] profiles[j])@.runs_in(
                    procs@,
                ) by {
                    assert(views[j] == profiles[j]@);
                }
            },
            None => {
                assert forall|j: int| 0 <= j < profiles.len() implies !(
                #[trigger] profiles[j])@.runs_in(procs@) by {
                    assert(views[j] == profiles[j]@);
                }
            },
        }
    }
    let mut i: usize = 0;
    assert(views.skip(0) == views);
    while i < profiles.len()
        invariant
            i <= profiles.len(),
            views == profile_views(profiles@),
            matched_game(procs@, views) == matched_game(procs@, views.skip(i as int)),
        decreases profiles.len() - i,
    {
        let ghost rest = views.skip(i as int);
        assert(rest[0] == profiles[i as int]@);
        assert(rest.drop_first() == views.skip(i + 1));
        if profiles[i].runs_in(procs) {
            return Some(profiles[i].id.clone());
        }
        i = i + 1;
    }
    assert(views.skip(i as int).len() == 0);
    None
}

/// The profile table as declared: identifier and executables of each game,
/// in declaration order.
pub open spec fn declared_games() -> Seq<(Seq<char>, Seq<Seq<char>>)> {
    seq![
        ("valorant"@, seq!["valorant.exe"@, "valorant-win64-shipping.exe"@]),
        ("lol"@, seq!["league of legends.exe"@]),
        ("tft"@, seq!["league of legends.exe"@]),
        ("cs2"@, seq!["cs2.exe"@]),
    ]
}

/// The built-in profile table. Only the executables of the games themselves
/// are listed, not those of their launchers. `lol` and `tft` are two modes of
/// one client and share its executable, so of the two only `lol` is ever
/// matched.
pub fn game_profiles() -> (profiles: Vec<GameProfile>)
    ensures
        profiles.len() == declared_games().len(),
        forall|i: int|
            0 <= i < profiles.len() ==> (#[trigger] profiles[i]).id@ == declared_games()[i].0
                && profiles[i].executables.deep_view() == declared_games()[i].1,
{
    let mut profiles: Vec<GameProfile> = Vec::new();
    let mut valorant: Vec<String> = Vec::new();
    valorant.push("valorant.exe".to_owned());
    valorant.push("valorant-win64-shipping.exe".to_owned());
    assert(valorant.deep_view() == declared_games()[0].1);
    profiles.push(GameProfile::new("valorant".to_owned(), valorant));
    let mut lol: Vec<String> = Vec::new();
    lol.push("league of legends.exe".to_owned());
    assert(lol.deep_view() == declared_games()[1].1);
    profiles.push(GameProfile::new("lol".to_owned(), lol));
    let mut tft: Vec<String> = Vec::new();
    tft.push("league of legends.exe".to_owned());
    assert(tft.deep_view() == declared_games()[2].1);
    profiles.push(GameProfile::new("tft".to_owned(), tft));
    let mut cs2: Vec<String> = Vec::new();
    cs2.push("cs2.exe".to_owned());
    assert(cs2.deep_view() == declared_games()[3].1);
    profiles.push(GameProfile::new("cs2".to_owned(), cs2));
    profiles
}

} // verus!
