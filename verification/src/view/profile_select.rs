//! Selection of the profile that templates are resolved against.

use crate::collection::{duplicate_entries, Profile, ProfileId, Template};
use crate::view::state::StateCell;
use vstd::prelude::*;

verus! {

/// The place of the first profile with the identifier, where there is one.
pub open spec fn first_with(profiles: Seq<Profile>, id: Seq<char>) -> Option<int> {
    if exists|i: int| 0 <= i < profiles.len() && (#[trigger] profiles[i]).id@ == id {
        Some(
            choose|i: int|
                {
                    &&& 0 <= i < profiles.len()
                    &&& (#[trigger] profiles[i]).id@ == id
                    &&& forall|k: int| 0 <= k < i ==> (#[trigger] profiles[k]).id@ != id
                },
        )
    } else {
        None
    }
}

/// Lists of profiles with the same identifiers, place by place, have
/// their first profile with an identifier at the same place.
pub proof fn lemma_first_with_alike(a: Seq<Profile>, b: Seq<Profile>, id: Seq<char>)
    requires
        a.len() == b.len(),
        forall|i: int| 0 <= i < a.len() ==> (#[trigger] a[i]).id@ == b[i].id@,
    ensures
        first_with(a, id) == first_with(b, id),
{
    if exists|i: int| 0 <= i < a.len() && (#[trigger] a[i]).id@ == id {
        let i = choose|i: int| 0 <= i < a.len() && (#[trigger] a[i]).id@ == id;
        assert(b[i].id@ == id);
        lemma_first_with(a, id);
        lemma_first_with(b, id);
        let x = first_with(a, id)->Some_0;
        let y = first_with(b, id)->Some_0;
        if x < y {
            assert(b[x].id@ != id);
            assert(a[x].id@ == b[x].id@);
        } else if y < x {
            assert(a[y].id@ != id);
            assert(a[y].id@ == b[y].id@);
        }
    } else {
        if exists|i: int| 0 <= i < b.len() && (#[trigger] b[i]).id@ == id {
            let i = choose|i: int| 0 <= i < b.len() && (#[trigger] b[i]).id@ == id;
            assert(a[i].id@ == b[i].id@);
        }
    }
}

/// Where a profile has the identifier, `first_with` is the place of the
/// first that has it.
pub proof fn lemma_first_with(profiles: Seq<Profile>, id: Seq<char>)
    requires
        exists|i: int| 0 <= i < profiles.len() && (#[trigger] profiles[i]).id@ == id,
    ensures
        first_with(profiles, id) matches Some(i) && {
            &&& 0 <= i < profiles.len()
            &&& profiles[i].id@ == id
            &&& forall|k: int| 0 <= k < i ==> (#[trigger] profiles[k]).id@ != id
        },
{
    let i = choose|i: int| 0 <= i < profiles.len() && (#[trigger] profiles[i]).id@ == id;
    lemma_least(profiles, id, i);
}

/// Below a place that holds the identifier there is a least one.
proof fn lemma_least(profiles: Seq<Profile>, id: Seq<char>, i: int)
    requires
        0 <= i < profiles.len(),
        profiles[i].id@ == id,
    ensures
        exists|j: int|
            {
                &&& 0 <= j < profiles.len()
                &&& (#[trigger] profiles[j]).id@ == id
                &&& forall|k: int| 0 <= k < j ==> (#[trigger] profiles[k]).id@ != id
            },
    decreases i,
{
    if exists|k: int| 0 <= k < i && (#[trigger] profiles[k]).id@ == id {
        let k = choose|k: int| 0 <= k < i && (#[trigger] profiles[k]).id@ == id;
        lemma_least(profiles, id, k);
    } else {
        assert(profiles[i].id@ == id);
    }
}

/// The place of the first profile with the identifier.
fn position(profiles: &Vec<Profile>, id: &ProfileId) -> (place: Option<usize>)
    ensures
        match place {
            Some(i) => {
                &&& i < profiles.len()
                &&& profiles[i as int].id@ == id@
                &&& forall|k: int| 0 <= k < i ==> (#[trigger] profiles[k]).id@ != id@
                &&& first_with(profiles@, id@) == Some(i as int)
            },
            None => {
                &&& forall|k: int| 0 <= k < profiles.len() ==> (#[trigger] profiles[k]).id@ != id@
                &&& first_with(profiles@, id@) is None
            },
        },
{
    let mut i: usize = 0;
    while i < profiles.len()
        invariant
            i <= profiles.len(),
            forall|k: int| 0 <= k < i ==> (#[trigger] profiles[k]).id@ != id@,
        decreases profiles.len() - i,
    {
        if id.names(&profiles[i]) {
            proof {
                assert(profiles@[i as int].id@ == id@);
                lemma_first_with(profiles@, id@);
                let found = first_with(profiles@, id@)->Some_0;
                assert(found == i) by {
                    if found < i {
                        assert(profiles[found].id@ != id@);
                    } else if found > i {
                        assert(profiles@[i as int].id@ != id@);
                    }
                }
            }
            return Some(i);
        }
        i += 1;
    }
    None
}

/// What can happen to the profile pane.
#[derive(Debug)]
pub enum ProfileEvent {
    /// The user asks for the list of profiles, by a click on the pane or by
    /// its key.
    OpenList,
    /// The list of profiles reports the profile that the user chose.
    Select(ProfileId),
    /// Anything else.
    Other,
}

/// What is to be done after the profile pane has seen an event.
#[derive(Debug)]
pub enum ProfileUpdate {
    /// The event is used up, and the modal is to be opened.
    OpenModal(ProfileListModal),
    /// The event is used up, and the request that is shown is to be loaded
    /// again, because it depends on the profile.
    LoadRequest,
    /// The event is none of the pane's and goes on to whoever is next.
    Propagate,
}

/// The pane that shows the current profile and opens the list of profiles.
#[derive(Debug)]
pub struct ProfilePane {
    /// All profiles, kept to fill the list when it is opened.
    profiles: Vec<Profile>,
    /// Identifier of the profile that is selected.
    selected_profile: Option<ProfileId>,
}

impl ProfilePane {
    pub closed spec fn profiles(&self) -> Seq<Profile> {
        self.profiles@
    }

    /// The identifier that is selected. It need not be that of any profile.
    pub closed spec fn selected_id(&self) -> Option<Seq<char>> {
        self.selected_profile.deep_view()
    }

    /// The profile that is shown as selected: the first with the selected
    /// identifier.
    pub open spec fn selected(&self) -> Option<Profile> {
        match self.selected_id() {
            Some(id) => match first_with(self.profiles(), id) {
                Some(i) => Some(self.profiles()[i]),
                None => None,
            },
            None => None,
        }
    }

    /// A pane over the profiles, with none selected.
    pub fn new(profiles: Vec<Profile>) -> (pane: Self)
        ensures
            pane.profiles() == profiles@,
            pane.selected_id() is None,
    {
        ProfilePane { profiles, selected_profile: None }
    }

    /// The selected profile: the first whose identifier is the selected
    /// one. There is none while nothing is selected, and none where the
    /// selected identifier is that of no profile.
    pub fn selected_profile(&self) -> (profile: Option<&Profile>)
        ensures
            match profile {
                Some(profile) => self.selected() == Some(*profile),
                None => self.selected() is None,
            },
    {
        match &self.selected_profile {
            Some(id) => match position(&self.profiles, id) {
                Some(i) => Some(&self.profiles[i]),
                None => None,
            },
            None => None,
        }
    }

    /// What the pane shows: the name of the selected profile, or that there
    /// is none.
    pub fn label(&self) -> (label: &str)
        ensures
            label@ == match self.selected() {
                Some(profile) => profile.display_name(),
                None => "No profiles defined"@,
            },
    {
        match self.selected_profile() {
            Some(profile) => profile.name(),
            None => "No profiles defined",
        }
    }

    /// Takes an event. A request for the list opens the modal over copies
    /// of all profiles, with the selected one preselected. A choice that the
    /// list reports becomes the selection, and has the request loaded again.
    /// Any other event is passed on and changes nothing.
    pub fn update(&mut self, event: ProfileEvent) -> (update: ProfileUpdate)
        ensures
            final(self).profiles() == old(self).profiles(),
            match event {
                ProfileEvent::OpenList => {
                    &&& final(self).selected_id() == old(self).selected_id()
                    &&& update matches ProfileUpdate::OpenModal(modal)
                    &&& modal.shows(old(self).profiles(), old(self).selected_id())
                },
                ProfileEvent::Select(id) => {
                    &&& final(self).selected_id() == Some(id@)
                    &&& update is LoadRequest
                },
                ProfileEvent::Other => {
                    &&& final(self).selected_id() == old(self).selected_id()
                    &&& update is Propagate
                },
            },
    {
        match event {
            ProfileEvent::OpenList => {
                let profiles = duplicate_profiles(&self.profiles);
                proof {
                    assert(listed(profiles@) =~= listed(self.profiles@));
                    if self.selected_profile is Some {
                        lemma_first_with_alike(
                            profiles@,
                            self.profiles@,
                            self.selected_profile->Some_0@,
                        );
                    }
                }
                let modal = match &self.selected_profile {
                    Some(id) => ProfileListModal::new(profiles, Some(id)),
                    None => ProfileListModal::new(profiles, None),
                };
                ProfileUpdate::OpenModal(modal)
            },
            ProfileEvent::Select(id) => {
                self.selected_profile = Some(id);
                ProfileUpdate::LoadRequest
            },
            ProfileEvent::Other => ProfileUpdate::Propagate,
        }
    }
}

/// What tells two profiles apart in a list: identifier and name.
pub open spec fn listed(profiles: Seq<Profile>) -> Seq<(Seq<char>, Option<Seq<char>>)> {
    Seq::new(profiles.len(), |i: int| (profiles[i].id@, profiles[i].name.deep_view()))
}

/// Copies of the profiles, in their order.
pub fn duplicate_profiles(profiles: &Vec<Profile>) -> (copy: Vec<Profile>)
    ensures
        copy.len() == profiles.len(),
        forall|i: int|
            0 <= i < profiles.len() ==> {
                &&& (#[trigger] copy[i]).id@ == profiles[i].id@
                &&& copy[i].name.deep_view() == profiles[i].name.deep_view()
                &&& copy[i].data.deep_view() == profiles[i].data.deep_view()
            },
{
    let mut copy: Vec<Profile> = Vec::new();
    let mut i: usize = 0;
    while i < profiles.len()
        invariant
            i <= profiles.len(),
            copy.len() == i,
            forall|k: int|
                0 <= k < i ==> {
                    &&& (#[trigger] copy[k]).id@ == profiles[k].id@
                    &&& copy[k].name.deep_view() == profiles[k].name.deep_view()
                    &&& copy[k].data.deep_view() == profiles[k].data.deep_view()
                },
        decreases profiles.len() - i,
    {
        copy.push(profiles[i].duplicate());
        i += 1;
    }
    copy
}

/// The rows that show what a profile holds.
pub struct ProfileDetailProps<'a> {
    pub profile: &'a Profile,
}

/// The contents of a profile as rows of field and template. The rows are
/// kept for the profile they were made of and made anew for another.
#[derive(Debug)]
pub struct ProfileDetail {
    fields: StateCell<ProfileId, Vec<(String, Template)>>,
}

impl ProfileDetail {
    /// Whether rows are kept, and of which profile.
    pub closed spec fn shown(&self) -> Option<Seq<char>> {
        if self.fields.is_set() {
            Some(self.fields.key()@)
        } else {
            None
        }
    }

    /// The detail before any profile was shown.
    pub fn new() -> (detail: Self)
        ensures
            detail.shown() is None,
    {
        ProfileDetail { fields: StateCell::new() }
    }

    /// The identifier of the profile whose rows are kept.
    pub fn profile_id(&self) -> (id: Option<&ProfileId>)
        ensures
            id.deep_view() == self.shown(),
    {
        self.fields.get_key()
    }

    /// The rows that are kept.
    pub closed spec fn kept(&self) -> Seq<(Seq<char>, Seq<char>)> {
        self.fields.value().deep_view()
    }

    /// The rows for the profile of `props`, each a field of the profile
    /// with its template, in the profile's order. Afterwards the rows are
    /// kept for that profile. Rows that are kept for the same profile are
    /// handed out as they are.
    pub fn rows(&mut self, props: ProfileDetailProps) -> (rows: &Vec<(String, Template)>)
        ensures
            final(self).shown() == Some(props.profile.id@),
            final(self).kept() == rows.deep_view(),
            rows.deep_view() == if old(self).shown() == Some(props.profile.id@) {
                old(self).kept()
            } else {
                props.profile.data.deep_view()
            },
    {
        let profile = props.profile;
        let init = || -> (rows: Vec<(String, Template)>)
            ensures
                rows.deep_view() == profile.data.deep_view(),
            { duplicate_entries(&profile.data) };
        self.fields.get_or_update(&profile.id, init)
    }
}

/// The list of profiles to choose from, with one of them preselected and
/// the detail of the one that is selected.
#[derive(Debug)]
pub struct ProfileListModal {
    profiles: Vec<Profile>,
    selected: Option<usize>,
    detail: ProfileDetail,
}

/// How many rows of the list are shown at most.
pub const LIST_HEIGHT: usize = 5;

impl ProfileListModal {
    #[verifier::type_invariant]
    spec fn in_range(&self) -> bool {
        match self.selected {
            Some(i) => i < self.profiles.len(),
            None => self.profiles.len() == 0,
        }
    }

    pub closed spec fn profiles(&self) -> Seq<Profile> {
        self.profiles@
    }

    /// The place of the selected profile in the list.
    pub closed spec fn selected_index(&self) -> Option<int> {
        match self.selected {
            Some(i) => Some(i as int),
            None => None,
        }
    }

    /// The place that is preselected: that of the first profile with the
    /// identifier; the first place where no profile has it or none is
    /// given; none in an empty list.
    pub open spec fn preselected(profiles: Seq<Profile>, id: Option<Seq<char>>) -> Option<int> {
        if profiles.len() == 0 {
            None
        } else {
            match id {
                Some(id) => match first_with(profiles, id) {
                    Some(i) => Some(i),
                    None => Some(0),
                },
                None => Some(0),
            }
        }
    }

    /// Whether the modal lists copies of the profiles and has preselected
    /// for the identifier.
    pub open spec fn shows(&self, profiles: Seq<Profile>, id: Option<Seq<char>>) -> bool {
        &&& listed(self.profiles()) == listed(profiles)
        &&& self.selected_index() == Self::preselected(profiles, id)
    }

    /// A modal over the profiles. The profile with the given identifier is
    /// preselected; without one, or where no profile has it, the first
    /// profile is.
    pub fn new(profiles: Vec<Profile>, selected_profile: Option<&ProfileId>) -> (modal: Self)
        ensures
            modal.profiles() == profiles@,
            modal.selected_index() == Self::preselected(profiles@, selected_profile.deep_view()),
    {
        let selected = if profiles.len() == 0 {
            None
        } else {
            match selected_profile {
                Some(id) => match position(&profiles, id) {
                    Some(i) => Some(i),
                    None => Some(0),
                },
                None => Some(0),
            }
        };
        ProfileListModal { profiles, selected, detail: ProfileDetail::new() }
    }

    /// The modal's title.
    pub fn title(&self) -> (title: &str)
        ensures
            title@ == "Profiles"@,
    {
        "Profiles"
    }

    /// Width and height of the modal, in percent of the screen.
    pub fn dimensions(&self) -> (size: (u16, u16))
        ensures
            size == (60u16, 40u16),
    {
        (60, 40)
    }

    /// The profiles in the list.
    pub fn items(&self) -> (items: &Vec<Profile>)
        ensures
            items@ == self.profiles(),
    {
        &self.profiles
    }

    /// The profile that is selected; none exactly in an empty list.
    pub fn selected(&self) -> (profile: Option<&Profile>)
        ensures
            match profile {
                Some(profile) => {
                    &&& self.selected_index() is Some
                    &&& 0 <= self.selected_index()->Some_0 < self.profiles().len()
                    &&& *profile == self.profiles()[self.selected_index()->Some_0]
                },
                None => self.selected_index() is None && self.profiles().len() == 0,
            },
    {
        proof {
            use_type_invariant(self);
        }
        match self.selected {
            Some(i) => Some(&self.profiles[i]),
            None => None,
        }
    }

    /// How many rows the list takes: one for each profile, and five at
    /// most.
    pub fn list_height(&self) -> (height: u16)
        ensures
            height == if self.profiles().len() < LIST_HEIGHT {
                self.profiles().len()
            } else {
                LIST_HEIGHT as nat
            },
    {
        if self.profiles.len() < LIST_HEIGHT {
            self.profiles.len() as u16
        } else {
            LIST_HEIGHT as u16
        }
    }

    /// What the list reports when the user submits: the choice of the
    /// selected profile. An empty list reports nothing.
    pub fn submit(&self) -> (event: Option<ProfileEvent>)
        ensures
            match event {
                Some(event) => {
                    &&& self.selected_index() is Some
                    &&& 0 <= self.selected_index()->Some_0 < self.profiles().len()
                    &&& event matches ProfileEvent::Select(id)
                    &&& id@ == self.profiles()[self.selected_index()->Some_0].id@
                },
                None => self.selected_index() is None,
            },
    {
        match self.selected() {
            Some(profile) => Some(ProfileEvent::Select(profile.id.clone())),
            None => None,
        }
    }
}

} // verus!
