//! Power profiles: what the two services that manage them offer, and how one is
//! chosen.

use vstd::prelude::*;

use crate::labels::Labels;
use crate::text::{optional_text, outcome, same_text, texts};

verus! {

/// The service that manages the power profiles.
#[derive(Clone, Copy, Debug, PartialEq, Eq, Structural)]
pub enum ProfileBackend {
    System76,
    Upower,
}

/// The power profiles that can be chosen, and the one in use.
#[derive(Debug)]
pub struct PowerProfile {
    pub backend: ProfileBackend,
    pub active: String,
    pub choices: Vec<String>,
}

/// A [`PowerProfile`] with its texts as sequences.
#[verifier::ext_equal]
pub struct ProfileView {
    pub backend: ProfileBackend,
    pub active: Seq<char>,
    pub choices: Seq<Seq<char>>,
}

impl View for PowerProfile {
    type V = ProfileView;

    open spec fn view(&self) -> ProfileView {
        ProfileView {
            backend: self.backend,
            active: self.active@,
            choices: texts(self.choices@),
        }
    }
}

impl Clone for PowerProfile {
    fn clone(&self) -> (r: Self)
        ensures
            r@ == self@,
    {
        let mut choices: Vec<String> = Vec::new();
        let mut i: usize = 0;
        while i < self.choices.len()
            invariant
                i <= self.choices.len(),
                choices@ == self.choices@.take(i as int),
            decreases self.choices.len() - i,
        {
            choices.push(self.choices[i].clone());
            i = i + 1;
        }
        assert(choices@ =~= self.choices@);
        PowerProfile { backend: self.backend, active: self.active.clone(), choices }
    }
}

/// A profile that may be missing, with its texts as sequences.
pub open spec fn optional_profile(profile: Option<PowerProfile>) -> Option<ProfileView> {
    match profile {
        Some(profile) => Some(profile@),
        None => None,
    }
}

/// A profile, or why there is none, with its texts as sequences.
pub open spec fn profile_outcome(outcome: Result<PowerProfile, String>) -> Result<
    ProfileView,
    Seq<char>,
> {
    match outcome {
        Ok(profile) => Ok(profile@),
        Err(reason) => Err(reason@),
    }
}

/// The name under which a profile is listed, for the names that either service
/// gives it.
pub open spec fn normalized(profile: Seq<char>) -> Option<Seq<char>> {
    if profile == "Battery"@ || profile == "power-saver"@ {
        Some("power-saver"@)
    } else if profile == "Balanced"@ || profile == "balanced"@ {
        Some("balanced"@)
    } else if profile == "Performance"@ || profile == "performance"@ {
        Some("performance"@)
    } else {
        None
    }
}

/// The name under which a profile is listed, for the names that either service
/// gives it.
pub fn normalized_profile(profile: &str) -> (r: Option<&'static str>)
    ensures
        match r {
            Some(name) => normalized(profile@) == Some(name@),
            None => normalized(profile@) is None,
        },
{
    if same_text(profile, "Battery") || same_text(profile, "power-saver") {
        Some("power-saver")
    } else if same_text(profile, "Balanced") || same_text(profile, "balanced") {
        Some("balanced")
    } else if same_text(profile, "Performance") || same_text(profile, "performance") {
        Some("performance")
    } else {
        None
    }
}

/// What a profile is called in the popup.
pub open spec fn label(profile: Seq<char>, labels: Labels) -> Seq<char> {
    if profile == "power-saver"@ {
        labels.power_saver@
    } else if profile == "balanced"@ {
        labels.balanced@
    } else if profile == "performance"@ {
        labels.performance@
    } else {
        profile
    }
}

/// What a profile is called in the popup.
pub fn profile_label(profile: &str, labels: &Labels) -> (r: String)
    ensures
        r@ == label(profile@, *labels),
{
    if same_text(profile, "power-saver") {
        labels.power_saver.clone()
    } else if same_text(profile, "balanced") {
        labels.balanced.clone()
    } else if same_text(profile, "performance") {
        labels.performance.clone()
    } else {
        profile.to_owned()
    }
}

/// What the choices are called in the popup, in their order.
pub open spec fn choice_labels(profile: ProfileView, labels: Labels) -> Seq<Seq<char>> {
    profile.choices.map_values(|choice: Seq<char>| label(choice, labels))
}

/// Where `wanted` stands first in `list`.
pub open spec fn first_position(list: Seq<Seq<char>>, wanted: Seq<char>) -> Option<nat>
    decreases list.len(),
{
    if list.len() == 0 {
        None
    } else if list[0] == wanted {
        Some(0)
    } else {
        match first_position(list.drop_first(), wanted) {
            Some(i) => Some(i + 1),
            None => None,
        }
    }
}

/// `first_position` finds the first place that holds `wanted`, and one wherever
/// there is one.
pub proof fn first_position_is_first(list: Seq<Seq<char>>, wanted: Seq<char>)
    ensures
        match first_position(list, wanted) {
            Some(i) => {
                &&& i < list.len()
                &&& list[i as int] == wanted
                &&& forall|j: int| 0 <= j < i ==> list[j] != wanted
            },
            None => !list.contains(wanted),
        },
    decreases list.len(),
{
    if list.len() > 0 && list[0] != wanted {
        let rest = list.drop_first();
        first_position_is_first(rest, wanted);
        match first_position(rest, wanted) {
            Some(i) => {
                assert(forall|j: int| 0 < j < list.len() ==> list[j] == rest[j - 1]);
            },
            None => {
                assert forall|j: int| 0 <= j < list.len() implies list[j] != wanted by {
                    if j > 0 {
                        assert(rest.contains(rest[j - 1]));
                    }
                }
            },
        }
    }
}

/// The position as it is shown in the popup's list.
pub open spec fn position_of(found: Option<usize>) -> Option<nat> {
    match found {
        Some(i) => Some(i as nat),
        None => None,
    }
}

impl PowerProfile {
    /// Where `name` stands first among the choices.
    pub fn position(&self, name: &str) -> (r: Option<usize>)
        ensures
            position_of(r) == first_position(self@.choices, name@),
    {
        proof {
            first_position_is_first(self@.choices, name@);
        }
        let mut i: usize = 0;
        while i < self.choices.len()
            invariant
                i <= self.choices.len(),
                forall|j: int| 0 <= j < i ==> self@.choices[j] != name@,
                match first_position(self@.choices, name@) {
                    Some(i) => {
                        &&& i < self@.choices.len()
                        &&& self@.choices[i as int] == name@
                        &&& forall|j: int| 0 <= j < i ==> self@.choices[j] != name@
                    },
                    None => !self@.choices.contains(name@),
                },
            decreases self.choices.len() - i,
        {
            if same_text(self.choices[i].as_str(), name) {
                assert(self@.choices[i as int] == name@);
                assert(self@.choices.contains(name@));
                return Some(i);
            }
            i = i + 1;
        }
        None
    }

    /// The place of the profile in use, for the popup's list.
    pub fn selected(&self) -> (r: Option<usize>)
        ensures
            position_of(r) == first_position(self@.choices, self@.active),
    {
        self.position(self.active.as_str())
    }

    /// What the choices are called in the popup, in their order.
    pub fn choice_labels(&self, labels: &Labels) -> (r: Vec<String>)
        ensures
            texts(r@) == choice_labels(self@, *labels),
    {
        let mut r: Vec<String> = Vec::new();
        let mut i: usize = 0;
        while i < self.choices.len()
            invariant
                i <= self.choices.len(),
                r.len() == i,
                forall|j: int| 0 <= j < i ==> #[trigger] r@[j]@ == label(
                    self.choices@[j]@,
                    *labels,
                ),
            decreases self.choices.len() - i,
        {
            r.push(profile_label(self.choices[i].as_str(), labels));
            i = i + 1;
        }
        assert(texts(r@) =~= choice_labels(self@, *labels));
        r
    }
}

/// What the System76 daemon always offers.
pub open spec fn system76_choices() -> Seq<Seq<char>> {
    seq!["power-saver"@, "balanced"@, "performance"@]
}

/// The profiles of the System76 daemon, by the name of the one in use.
pub open spec fn system76_outcome(active: Seq<char>) -> Result<ProfileView, Seq<char>> {
    match normalized(active) {
        Some(name) => Ok(
            ProfileView {
                backend: ProfileBackend::System76,
                active: name,
                choices: system76_choices(),
            },
        ),
        None => Err("unknown System76 power profile: "@ + active),
    }
}

/// The profiles of the System76 daemon, which answered that `active` is in use.
pub fn system76_profile(active: &str) -> (r: Result<PowerProfile, String>)
    ensures
        profile_outcome(r) == system76_outcome(active@),
{
    match normalized_profile(active) {
        Some(name) => {
            let mut choices: Vec<String> = Vec::new();
            choices.push("power-saver".to_owned());
            choices.push("balanced".to_owned());
            choices.push("performance".to_owned());
            assert(texts(choices@) =~= system76_choices());
            Ok(
                PowerProfile {
                    backend: ProfileBackend::System76,
                    active: name.to_owned(),
                    choices,
                },
            )
        },
        None => {
            let mut reason = "unknown System76 power profile: ".to_owned();
            reason.append(active);
            Err(reason)
        },
    }
}

/// One entry of a description that the power-profiles service gives of a
/// profile. `text` is missing where the value is not a text.
#[derive(Debug)]
pub struct ProfileField {
    pub name: String,
    pub text: Option<String>,
}

/// The name that a description gives to its profile.
pub open spec fn described_name(description: Seq<ProfileField>) -> Option<Seq<char>>
    decreases description.len(),
{
    if description.len() == 0 {
        None
    } else if description[0].name@ == "Profile"@ {
        optional_text(description[0].text)
    } else {
        described_name(description.drop_first())
    }
}

/// The choice that a description makes available.
pub open spec fn described_choice(description: Seq<ProfileField>) -> Option<Seq<char>> {
    match described_name(description) {
        Some(name) => normalized(name),
        None => None,
    }
}

/// The choices that the descriptions make available, in their order.
pub open spec fn described_choices(descriptions: Seq<Vec<ProfileField>>) -> Seq<Seq<char>>
    decreases descriptions.len(),
{
    if descriptions.len() == 0 {
        Seq::empty()
    } else {
        let before = described_choices(descriptions.drop_last());
        match described_choice(descriptions.last()@) {
            Some(choice) => before.push(choice),
            None => before,
        }
    }
}

fn profile_choice(description: &Vec<ProfileField>) -> (r: Option<&'static str>)
    ensures
        match r {
            Some(name) => described_choice(description@) == Some(name@),
            None => described_choice(description@) is None,
        },
{
    let mut i: usize = 0;
    assert(description@.skip(0) =~= description@);
    while i < description.len()
        invariant
            i <= description.len(),
            described_name(description@) == described_name(description@.skip(i as int)),
        decreases description.len() - i,
    {
        if same_text(description[i].name.as_str(), "Profile") {
            return match &description[i].text {
                Some(name) => normalized_profile(name.as_str()),
                None => None,
            };
        }
        assert(description@.skip(i as int).drop_first() =~= description@.skip(i + 1));
        i = i + 1;
    }
    None
}

/// The profiles of the power-profiles service, by the name of the one in use and
/// the descriptions of all.
pub open spec fn upower_outcome(
    active: Seq<char>,
    descriptions: Seq<Vec<ProfileField>>,
) -> Result<ProfileView, Seq<char>> {
    let choices = described_choices(descriptions);
    if choices.len() == 0 {
        Err("UPower exposes no supported power profiles"@)
    } else {
        Ok(
            ProfileView {
                backend: ProfileBackend::Upower,
                active: match normalized(active) {
                    Some(name) => name,
                    None => active,
                },
                choices,
            },
        )
    }
}

/// The profiles of the power-profiles service, which answered that `active` is in
/// use and gave the descriptions.
pub fn upower_profile(active: &str, descriptions: &Vec<Vec<ProfileField>>) -> (r: Result<
    PowerProfile,
    String,
>)
    ensures
        profile_outcome(r) == upower_outcome(active@, descriptions@),
{
    let mut choices: Vec<String> = Vec::new();
    let mut i: usize = 0;
    assert(texts(choices@) =~= described_choices(descriptions@.take(0)));
    while i < descriptions.len()
        invariant
            i <= descriptions.len(),
            texts(choices@) == described_choices(descriptions@.take(i as int)),
        decreases descriptions.len() - i,
    {
        proof {
            assert(descriptions@.take(i + 1).drop_last() =~= descriptions@.take(i as int));
        }
        match profile_choice(&descriptions[i]) {
            Some(choice) => {
                let ghost before = texts(choices@);
                choices.push(choice.to_owned());
                assert(texts(choices@) =~= before.push(choice@));
            },
            None => {},
        }
        i = i + 1;
    }
    assert(descriptions@.take(i as int) =~= descriptions@);
    if choices.len() == 0 {
        return Err("UPower exposes no supported power profiles".to_owned());
    }
    let active: String = match normalized_profile(active) {
        Some(name) => name.to_owned(),
        None => active.to_owned(),
    };
    Ok(PowerProfile { backend: ProfileBackend::Upower, active, choices })
}

/// Where the search for the power profiles stands: the question that is put
/// next, or what it came to.
#[derive(Debug)]
pub enum ProfileSearch {
    /// Connect to the system bus.
    Connect,
    /// Ask the System76 daemon for the profile in use.
    PowerDaemon,
    /// Reach the power-profiles service.
    PowerProfiles,
    /// Ask the power-profiles service for the profile in use.
    ActiveProfile,
    /// Ask the power-profiles service for the descriptions.
    Descriptions { active: String },
    Done(Result<PowerProfile, String>),
}

/// A [`ProfileSearch`] with its texts as sequences.
pub enum SearchView {
    Connect,
    PowerDaemon,
    PowerProfiles,
    ActiveProfile,
    Descriptions { active: Seq<char> },
    Done(Result<ProfileView, Seq<char>>),
}

impl View for ProfileSearch {
    type V = SearchView;

    open spec fn view(&self) -> SearchView {
        match self {
            ProfileSearch::Connect => SearchView::Connect,
            ProfileSearch::PowerDaemon => SearchView::PowerDaemon,
            ProfileSearch::PowerProfiles => SearchView::PowerProfiles,
            ProfileSearch::ActiveProfile => SearchView::ActiveProfile,
            ProfileSearch::Descriptions { active } => SearchView::Descriptions {
                active: active@,
            },
            ProfileSearch::Done(end) => SearchView::Done(profile_outcome(*end)),
        }
    }
}

/// What the services would answer to each question of the search.
pub struct SearchAnswers {
    pub bus: Result<(), Seq<char>>,
    pub daemon: Option<Seq<char>>,
    pub service: Result<(), Seq<char>>,
    pub active: Result<Seq<char>, Seq<char>>,
    pub descriptions: Result<Seq<Vec<ProfileField>>, Seq<char>>,
}

impl SearchView {
    pub open spec fn connected(reply: Result<(), Seq<char>>) -> SearchView {
        match reply {
            Ok(_) => SearchView::PowerDaemon,
            Err(reason) => SearchView::Done(Err(reason)),
        }
    }

    pub open spec fn power_daemon(active: Option<Seq<char>>) -> SearchView {
        match active {
            Some(active) => SearchView::Done(system76_outcome(active)),
            None => SearchView::PowerProfiles,
        }
    }

    pub open spec fn power_profiles(reply: Result<(), Seq<char>>) -> SearchView {
        match reply {
            Ok(_) => SearchView::ActiveProfile,
            Err(reason) => SearchView::Done(Err(reason)),
        }
    }

    pub open spec fn active_profile(reply: Result<Seq<char>, Seq<char>>) -> SearchView {
        match reply {
            Ok(active) => SearchView::Descriptions { active },
            Err(reason) => SearchView::Done(Err(reason)),
        }
    }

    pub open spec fn descriptions(
        active: Seq<char>,
        reply: Result<Seq<Vec<ProfileField>>, Seq<char>>,
    ) -> SearchView {
        match reply {
            Ok(descriptions) => SearchView::Done(upower_outcome(active, descriptions)),
            Err(reason) => SearchView::Done(Err(reason)),
        }
    }

    /// The search after one more question. A search that is done stays so.
    pub open spec fn next(self, answers: SearchAnswers) -> SearchView {
        match self {
            SearchView::Connect => SearchView::connected(answers.bus),
            SearchView::PowerDaemon => SearchView::power_daemon(answers.daemon),
            SearchView::PowerProfiles => SearchView::power_profiles(answers.service),
            SearchView::ActiveProfile => SearchView::active_profile(answers.active),
            SearchView::Descriptions { active } => SearchView::descriptions(
                active,
                answers.descriptions,
            ),
            SearchView::Done(_) => self,
        }
    }
}

impl ProfileSearch {
    /// The search once the system bus was tried.
    pub fn connected(reply: Result<(), String>) -> (r: ProfileSearch)
        ensures
            r@ == SearchView::connected(outcome(reply)),
    {
        match reply {
            Ok(_) => ProfileSearch::PowerDaemon,
            Err(reason) => ProfileSearch::Done(Err(reason)),
        }
    }

    /// The search once the System76 daemon was asked. It counts as missing where it
    /// did not answer.
    pub fn power_daemon(active: Option<String>) -> (r: ProfileSearch)
        ensures
            r@ == SearchView::power_daemon(optional_text(active)),
    {
        match active {
            Some(active) => ProfileSearch::Done(system76_profile(active.as_str())),
            None => ProfileSearch::PowerProfiles,
        }
    }

    /// The search once the power-profiles service was tried.
    pub fn power_profiles(reply: Result<(), String>) -> (r: ProfileSearch)
        ensures
            r@ == SearchView::power_profiles(outcome(reply)),
    {
        match reply {
            Ok(_) => ProfileSearch::ActiveProfile,
            Err(reason) => ProfileSearch::Done(Err(reason)),
        }
    }

    /// The search once the power-profiles service was asked for the profile in use.
    pub fn active_profile(reply: Result<String, String>) -> (r: ProfileSearch)
        ensures
            r@ == SearchView::active_profile(
                match reply {
                    Ok(active) => Ok(active@),
                    Err(reason) => Err(reason@),
                },
            ),
    {
        match reply {
            Ok(active) => ProfileSearch::Descriptions { active },
            Err(reason) => ProfileSearch::Done(Err(reason)),
        }
    }

    /// The search once the power-profiles service, with `active` in use, was asked for
    /// the descriptions.
    pub fn descriptions(active: &str, reply: Result<Vec<Vec<ProfileField>>, String>) -> (r:
        ProfileSearch)
        ensures
            r@ == SearchView::descriptions(
                active@,
                match reply {
                    Ok(descriptions) => Ok(descriptions@),
                    Err(reason) => Err(reason@),
                },
            ),
    {
        match reply {
            Ok(descriptions) => ProfileSearch::Done(upower_profile(active, &descriptions)),
            Err(reason) => ProfileSearch::Done(Err(reason)),
        }
    }
}

/// What a search comes to: the System76 daemon is believed where it answers, else the
/// power-profiles service; what fails on the way there is the reason why there are no
/// profiles.
pub open spec fn found(answers: SearchAnswers) -> Result<ProfileView, Seq<char>> {
    if answers.bus is Err {
        Err(answers.bus->Err_0)
    } else if answers.daemon is Some {
        system76_outcome(answers.daemon->0)
    } else if answers.service is Err {
        Err(answers.service->Err_0)
    } else if answers.active is Err {
        Err(answers.active->Err_0)
    } else if answers.descriptions is Err {
        Err(answers.descriptions->Err_0)
    } else {
        upower_outcome(answers.active->Ok_0, answers.descriptions->Ok_0)
    }
}

/// A search is done after five questions at most, with what `found` says, and profiles
/// that were found were offered.
pub proof fn search_ends(answers: SearchAnswers)
    ensures
        SearchView::Connect.next(answers).next(answers).next(answers).next(answers).next(answers)
            == SearchView::Done(found(answers)),
        found(answers) matches Ok(profile) ==> offered(profile),
{
    if answers.daemon is Some {
        system76_offers(answers.daemon->0);
    }
    if answers.active is Ok && answers.descriptions is Ok {
        upower_offers(answers.active->Ok_0, answers.descriptions->Ok_0);
    }
}

/// What a service is told so that a profile comes into use.
#[derive(Debug)]
pub enum ProfileCommand {
    /// The System76 daemon's call of that name.
    Battery,
    /// The System76 daemon's call of that name.
    Balanced,
    /// The System76 daemon's call of that name.
    Performance,
    /// Set the power-profiles service's property for the profile in use.
    SetActiveProfile(String),
}

/// A [`ProfileCommand`] with its text as a sequence.
pub enum CommandView {
    Battery,
    Balanced,
    Performance,
    SetActiveProfile(Seq<char>),
}

impl View for ProfileCommand {
    type V = CommandView;

    open spec fn view(&self) -> CommandView {
        match self {
            ProfileCommand::Battery => CommandView::Battery,
            ProfileCommand::Balanced => CommandView::Balanced,
            ProfileCommand::Performance => CommandView::Performance,
            ProfileCommand::SetActiveProfile(name) => CommandView::SetActiveProfile(name@),
        }
    }
}

/// What the profile's service is told so that `profile.active` comes into use.
pub open spec fn command(profile: ProfileView) -> Result<CommandView, Seq<char>> {
    match profile.backend {
        ProfileBackend::System76 => if profile.active == "power-saver"@ {
            Ok(CommandView::Battery)
        } else if profile.active == "balanced"@ {
            Ok(CommandView::Balanced)
        } else if profile.active == "performance"@ {
            Ok(CommandView::Performance)
        } else {
            Err("unsupported power profile: "@ + profile.active)
        },
        ProfileBackend::Upower => Ok(CommandView::SetActiveProfile(profile.active)),
    }
}

impl PowerProfile {
    /// What the profile's service is told so that `active` comes into use.
    pub fn command(&self) -> (r: Result<ProfileCommand, String>)
        ensures
            match r {
                Ok(told) => command(self@) == Ok::<CommandView, Seq<char>>(told@),
                Err(reason) => command(self@) == Err::<CommandView, Seq<char>>(reason@),
            },
    {
        match self.backend {
            ProfileBackend::System76 => {
                if same_text(self.active.as_str(), "power-saver") {
                    Ok(ProfileCommand::Battery)
                } else if same_text(self.active.as_str(), "balanced") {
                    Ok(ProfileCommand::Balanced)
                } else if same_text(self.active.as_str(), "performance") {
                    Ok(ProfileCommand::Performance)
                } else {
                    let mut reason = "unsupported power profile: ".to_owned();
                    reason.append(self.active.as_str());
                    Err(reason)
                }
            },
            ProfileBackend::Upower => Ok(ProfileCommand::SetActiveProfile(self.active.clone())),
        }
    }
}

/// Where bringing a profile into use stands: what is done next, or what it came to.
#[derive(Debug)]
pub enum ProfileChange {
    /// Reach the profile's service.
    Open(PowerProfile),
    /// Tell the service.
    Tell(PowerProfile, ProfileCommand),
    Done(Result<PowerProfile, String>),
}

/// A [`ProfileChange`] with its texts as sequences.
pub enum ChangeView {
    Open(ProfileView),
    Tell(ProfileView, CommandView),
    Done(Result<ProfileView, Seq<char>>),
}

impl View for ProfileChange {
    type V = ChangeView;

    open spec fn view(&self) -> ChangeView {
        match self {
            ProfileChange::Open(profile) => ChangeView::Open(profile@),
            ProfileChange::Tell(profile, told) => ChangeView::Tell(profile@, told@),
            ProfileChange::Done(end) => ChangeView::Done(profile_outcome(*end)),
        }
    }
}

impl ChangeView {
    pub open spec fn connected(
        profile: ProfileView,
        reply: Result<(), Seq<char>>,
    ) -> ChangeView {
        match reply {
            Ok(_) => ChangeView::Open(profile),
            Err(reason) => ChangeView::Done(Err(reason)),
        }
    }

    pub open spec fn opened(profile: ProfileView, reply: Result<(), Seq<char>>) -> ChangeView {
        match reply {
            Ok(_) => match command(profile) {
                Ok(told) => ChangeView::Tell(profile, told),
                Err(reason) => ChangeView::Done(Err(reason)),
            },
            Err(reason) => ChangeView::Done(Err(reason)),
        }
    }

    pub open spec fn told(profile: ProfileView, reply: Result<(), Seq<char>>) -> ChangeView {
        match reply {
            Ok(_) => ChangeView::Done(Ok(profile)),
            Err(reason) => ChangeView::Done(Err(reason)),
        }
    }

    /// The change after one more step. A change that is done stays so.
    pub open spec fn next(
        self,
        service: Result<(), Seq<char>>,
        told: Result<(), Seq<char>>,
    ) -> ChangeView {
        match self {
            ChangeView::Open(profile) => ChangeView::opened(profile, service),
            ChangeView::Tell(profile, _) => ChangeView::told(profile, told),
            ChangeView::Done(_) => self,
        }
    }
}

impl ProfileChange {
    /// The change once the system bus was tried.
    pub fn connected(profile: PowerProfile, reply: Result<(), String>) -> (r: ProfileChange)
        ensures
            r@ == ChangeView::connected(profile@, outcome(reply)),
    {
        match reply {
            Ok(_) => ProfileChange::Open(profile),
            Err(reason) => ProfileChange::Done(Err(reason)),
        }
    }

    /// The change once the profile's service was tried.
    pub fn opened(profile: PowerProfile, reply: Result<(), String>) -> (r: ProfileChange)
        ensures
            r@ == ChangeView::opened(profile@, outcome(reply)),
    {
        match reply {
            Ok(_) => match profile.command() {
                Ok(told) => ProfileChange::Tell(profile, told),
                Err(reason) => ProfileChange::Done(Err(reason)),
            },
            Err(reason) => ProfileChange::Done(Err(reason)),
        }
    }

    /// The change once the service was told.
    pub fn told(profile: PowerProfile, reply: Result<(), String>) -> (r: ProfileChange)
        ensures
            r@ == ChangeView::told(profile@, outcome(reply)),
    {
        match reply {
            Ok(_) => ProfileChange::Done(Ok(profile)),
            Err(reason) => ProfileChange::Done(Err(reason)),
        }
    }
}

/// What bringing a profile into use comes to: the profile is given back as it was asked
/// for where the bus and the service are reached, the service has a command for it, and
/// the command is answered; else the first of these that fails is the reason.
pub open spec fn changed(
    profile: ProfileView,
    bus: Result<(), Seq<char>>,
    service: Result<(), Seq<char>>,
    told: Result<(), Seq<char>>,
) -> Result<ProfileView, Seq<char>> {
    if bus is Err {
        Err(bus->Err_0)
    } else if service is Err {
        Err(service->Err_0)
    } else if command(profile) is Err {
        Err(command(profile)->Err_0)
    } else if told is Err {
        Err(told->Err_0)
    } else {
        Ok(profile)
    }
}

/// A change is done after three steps at most, with what `changed` says. The service is
/// told just where both bus and service are reached and there is a command, and is then
/// told that command.
pub proof fn change_ends(
    profile: ProfileView,
    bus: Result<(), Seq<char>>,
    service: Result<(), Seq<char>>,
    told: Result<(), Seq<char>>,
)
    ensures
        ({
            let opened = ChangeView::connected(profile, bus).next(service, told);
            &&& opened.next(service, told) == ChangeView::Done(
                changed(profile, bus, service, told),
            )
            &&& opened is Tell <==> bus is Ok && service is Ok && command(profile) is Ok
            &&& opened is Tell ==> opened == ChangeView::Tell(profile, command(profile)->Ok_0)
        }),
{
}

/// What holds of the profiles that a service offers: there is something to
/// choose, every choice goes by its listed name, and so does the profile that the
/// System76 daemon has in use.
pub open spec fn offered(profile: ProfileView) -> bool {
    &&& profile.choices.len() > 0
    &&& forall|i: int|
        0 <= i < profile.choices.len() ==> normalized(#[trigger] profile.choices[i]) == Some(
            profile.choices[i],
        )
    &&& profile.backend == ProfileBackend::System76 ==> normalized(profile.active) == Some(
        profile.active,
    )
}

/// A listed name is its own listed name, and there are three of them.
pub proof fn normalized_is_stable(profile: Seq<char>)
    ensures
        match normalized(profile) {
            Some(name) => {
                &&& normalized(name) == Some(name)
                &&& system76_choices().contains(name)
            },
            None => !system76_choices().contains(profile),
        },
{
    let choices = system76_choices();
    assert(choices[0] == "power-saver"@ && choices[1] == "balanced"@ && choices[2]
        == "performance"@);
    match normalized(profile) {
        Some(name) => lemma_listed(name),
        None => {},
    }
}

/// The System76 daemon offers just the three listed names, the one in use among
/// them.
pub proof fn system76_offers(active: Seq<char>)
    ensures
        system76_outcome(active) matches Ok(profile) ==> offered(profile)
            && profile.choices.contains(profile.active),
{
    normalized_is_stable(active);
    let choices = system76_choices();
    assert forall|i: int| 0 <= i < choices.len() implies normalized(#[trigger] choices[i]) == Some(
        choices[i],
    ) by {
        assert(choices.contains(choices[i]));
        lemma_listed(choices[i]);
    }
}

/// A name that the System76 daemon offers is a listed name.
proof fn lemma_listed(name: Seq<char>)
    requires
        system76_choices().contains(name),
    ensures
        normalized(name) == Some(name),
{
    reveal_strlit("Battery");
    reveal_strlit("Balanced");
    reveal_strlit("power-saver");
    reveal_strlit("balanced");
    reveal_strlit("performance");
    assert("performance"@[1] != "power-saver"@[1]);
}

/// The choices that descriptions make available go by their listed names.
proof fn lemma_described(descriptions: Seq<Vec<ProfileField>>)
    ensures
        forall|i: int|
            0 <= i < described_choices(descriptions).len() ==> normalized(
                #[trigger] described_choices(descriptions)[i],
            ) == Some(described_choices(descriptions)[i]),
    decreases descriptions.len(),
{
    if descriptions.len() > 0 {
        lemma_described(descriptions.drop_last());
        match described_name(descriptions.last()@) {
            Some(name) => normalized_is_stable(name),
            None => {},
        }
    }
}

/// The power-profiles service offers listed names only.
pub proof fn upower_offers(active: Seq<char>, descriptions: Seq<Vec<ProfileField>>)
    ensures
        upower_outcome(active, descriptions) matches Ok(profile) ==> offered(profile),
{
    lemma_described(descriptions);
}

/// Whatever was offered can be chosen: the service knows what it is told, and what
/// it then has in use was offered too.
pub proof fn offered_choice_is_supported(profile: ProfileView, name: Seq<char>)
    requires
        offered(profile),
        profile.choices.contains(name),
    ensures
        offered(ProfileView { active: name, ..profile }),
        command(ProfileView { active: name, ..profile }) is Ok,
{
    let i = choose|i: int| 0 <= i < profile.choices.len() && profile.choices[i] == name;
    assert(normalized(profile.choices[i]) == Some(name));
    normalized_is_stable(name);
}

/// A choice that was offered is never refused for want of a command: it comes into use
/// just where bus, service and command are answered, and else the first of the three that
/// failed is the reason.
pub proof fn offered_choice_comes_into_use(
    profile: ProfileView,
    name: Seq<char>,
    bus: Result<(), Seq<char>>,
    service: Result<(), Seq<char>>,
    told: Result<(), Seq<char>>,
)
    requires
        offered(profile),
        profile.choices.contains(name),
    ensures
        ({
            let wanted = ProfileView { active: name, ..profile };
            changed(wanted, bus, service, told) == if bus is Err {
                Err(bus->Err_0)
            } else if service is Err {
                Err(service->Err_0)
            } else if told is Err {
                Err(told->Err_0)
            } else {
                Ok(wanted)
            }
        }),
{
    offered_choice_is_supported(profile, name);
}

/// Each listed name stands for itself and for the System76 daemon's name of the profile,
/// and for nothing else; other names are not listed.
pub proof fn listed_names_stand_for_two(profile: Seq<char>)
    ensures
        normalized(profile) == Some("power-saver"@) <==> profile == "power-saver"@ || profile
            == "Battery"@,
        normalized(profile) == Some("balanced"@) <==> profile == "balanced"@ || profile
            == "Balanced"@,
        normalized(profile) == Some("performance"@) <==> profile == "performance"@ || profile
            == "Performance"@,
        normalized(profile) matches Some(name) ==> name == "power-saver"@ || name == "balanced"@
            || name == "performance"@,
{
    lemma_names_differ();
}

/// No two of the names that the services give are the same.
proof fn lemma_names_differ()
    ensures
        "power-saver"@ != "balanced"@,
        "power-saver"@ != "performance"@,
        "balanced"@ != "performance"@,
        "Battery"@ != "Balanced"@,
        "Battery"@ != "Performance"@,
        "Balanced"@ != "Performance"@,
        "Battery"@ != "power-saver"@,
        "Battery"@ != "balanced"@,
        "Battery"@ != "performance"@,
        "Balanced"@ != "power-saver"@,
        "Balanced"@ != "balanced"@,
        "Balanced"@ != "performance"@,
        "Performance"@ != "power-saver"@,
        "Performance"@ != "balanced"@,
        "Performance"@ != "performance"@,
{
    reveal_strlit("Battery");
    reveal_strlit("Balanced");
    reveal_strlit("Performance");
    reveal_strlit("power-saver");
    reveal_strlit("balanced");
    reveal_strlit("performance");
    assert("Battery"@.len() != "Balanced"@.len());
    assert("performance"@[1] != "power-saver"@[1]);
    assert("Balanced"@[0] != "balanced"@[0]);
    assert("Performance"@[0] != "performance"@[0]);
    assert("Performance"@[0] != "power-saver"@[0]);
}

/// A listed name is shown by its own text in the session's language, every other name as
/// it is, and each entry of the list by that of its choice.
pub proof fn names_are_shown_by_their_labels(
    profile: ProfileView,
    name: Seq<char>,
    labels: Labels,
    i: int,
)
    ensures
        label("power-saver"@, labels) == labels.power_saver@,
        label("balanced"@, labels) == labels.balanced@,
        label("performance"@, labels) == labels.performance@,
        normalized(name) != Some(name) ==> label(name, labels) == name,
        choice_labels(profile, labels).len() == profile.choices.len(),
        0 <= i < profile.choices.len() ==> choice_labels(profile, labels)[i] == label(
            profile.choices[i],
            labels,
        ),
{
    lemma_names_differ();
}

/// The System76 daemon's answer makes profiles known just where it is a name that is known:
/// the three listed names can be chosen then, and the one in use is the listed name for the
/// answer. Any other answer is named in the reason.
pub proof fn system76_answer_is_believed(active: Seq<char>)
    ensures
        system76_outcome(active) is Ok <==> normalized(active) is Some,
        system76_outcome(active) matches Ok(profile) ==> {
            &&& profile.backend == ProfileBackend::System76
            &&& normalized(active) == Some(profile.active)
            &&& profile.choices.len() == 3
            &&& profile.choices[0] == "power-saver"@
            &&& profile.choices[1] == "balanced"@
            &&& profile.choices[2] == "performance"@
        },
        system76_outcome(active) matches Err(reason) ==> reason
            == "unknown System76 power profile: "@ + active,
{
}

/// A description names its profile in the first entry that is called so, where that entry
/// is a text; one without such an entry names none.
pub proof fn description_names_its_profile(description: Seq<ProfileField>, i: int)
    ensures
        0 <= i < description.len() && description[i].name@ == "Profile"@ && (forall|j: int|
            0 <= j < i ==> (#[trigger] description[j]).name@ != "Profile"@)
            ==> match description[i].text {
            Some(text) => described_name(description) == Some(text@),
            None => described_name(description) is None,
        },
        (forall|j: int|
            0 <= j < description.len() ==> (#[trigger] description[j]).name@ != "Profile"@)
            ==> described_name(description) is None,
    decreases description.len(),
{
    if description.len() > 0 {
        let rest = description.drop_first();
        description_names_its_profile(rest, i - 1);
        assert(forall|j: int| 0 <= j < rest.len() ==> #[trigger] rest[j] == description[j + 1]);
    }
}

/// The choices of two lists of descriptions are those of the first and then those of the
/// second; a single description makes the listed name for its profile available, or nothing
/// where that is not listed.
pub proof fn choices_come_from_each_description(
    first: Seq<Vec<ProfileField>>,
    second: Seq<Vec<ProfileField>>,
    description: Vec<ProfileField>,
)
    ensures
        described_choices(first + second) == described_choices(first) + described_choices(second),
        match described_name(description@) {
            Some(name) => match normalized(name) {
                Some(choice) => described_choices(seq![description]) == seq![choice],
                None => described_choices(seq![description]).len() == 0,
            },
            None => described_choices(seq![description]).len() == 0,
        },
        described_choices(Seq::empty()).len() == 0,
    decreases second.len(),
{
    assert(seq![description].drop_last() =~= Seq::empty());
    assert(described_choices(Seq::empty()) =~= Seq::empty());
    if second.len() == 0 {
        assert(first + second =~= first);
        assert(described_choices(second) =~= Seq::empty());
        assert(described_choices(first) + described_choices(second) =~= described_choices(first));
    } else {
        choices_come_from_each_description(first, second.drop_last(), description);
        assert((first + second).drop_last() =~= first + second.drop_last());
        assert(described_choices(first + second) =~= described_choices(first)
            + described_choices(second));
    }
}

/// The power-profiles service makes profiles known just where a description makes a choice
/// available. The one in use goes by its listed name, or by its own where it is not listed.
pub proof fn upower_answer_is_believed(
    active: Seq<char>,
    descriptions: Seq<Vec<ProfileField>>,
)
    ensures
        upower_outcome(active, descriptions) is Ok <==> described_choices(descriptions).len() > 0,
        upower_outcome(active, descriptions) matches Ok(profile) ==> {
            &&& profile.backend == ProfileBackend::Upower
            &&& profile.choices == described_choices(descriptions)
            &&& normalized(active) matches Some(name) ==> profile.active == name
            &&& normalized(active) is None ==> profile.active == active
        },
        upower_outcome(active, descriptions) matches Err(reason) ==> reason
            == "UPower exposes no supported power profiles"@,
{
}

/// A search without a bus fails for that reason. With one, the System76 daemon's answer
/// decides, whatever the other service would say; only where there is none is the other
/// service asked, and what fails first on its side is the reason.
pub proof fn system76_comes_first(answers: SearchAnswers, other: SearchAnswers)
    ensures
        answers.bus matches Err(reason) ==> found(answers) == Err::<ProfileView, Seq<char>>(
            reason,
        ),
        answers.bus is Ok ==> {
            &&& answers.daemon matches Some(active) ==> found(answers) == system76_outcome(active)
                && found(SearchAnswers { daemon: answers.daemon, bus: answers.bus, ..other })
                == found(answers)
            &&& answers.daemon is None ==> {
                &&& answers.service matches Err(reason) ==> found(answers) == Err::<
                    ProfileView,
                    Seq<char>,
                >(reason)
                &&& answers.service is Ok ==> match (answers.active, answers.descriptions) {
                    (Err(reason), _) => found(answers) == Err::<ProfileView, Seq<char>>(reason),
                    (Ok(_), Err(reason)) => found(answers) == Err::<ProfileView, Seq<char>>(
                        reason,
                    ),
                    (Ok(active), Ok(descriptions)) => found(answers) == upower_outcome(
                        active,
                        descriptions,
                    ),
                }
            }
        },
{
}

/// The name under which a service reports a profile once it was told the command.
pub open spec fn reported_by(command: CommandView) -> Seq<char> {
    match command {
        CommandView::Battery => "Battery"@,
        CommandView::Balanced => "Balanced"@,
        CommandView::Performance => "Performance"@,
        CommandView::SetActiveProfile(name) => name,
    }
}

/// The power-profiles service is told the very name that is to come into use, whatever that
/// is. The System76 daemon is told the call whose profile goes by the name that is to come
/// into use, and is told something just for the three listed names; the reason against
/// another name holds that name.
pub proof fn service_is_told_what_was_picked(profile: ProfileView)
    ensures
        profile.backend == ProfileBackend::Upower ==> command(profile) == Ok::<
            CommandView,
            Seq<char>,
        >(CommandView::SetActiveProfile(profile.active)),
        profile.backend == ProfileBackend::System76 ==> {
            &&& command(profile) is Ok <==> normalized(profile.active) == Some(profile.active)
            &&& command(profile) matches Ok(told) ==> told !is SetActiveProfile && normalized(
                reported_by(told),
            ) == Some(profile.active)
            &&& command(profile) matches Err(reason) ==> reason
                == "unsupported power profile: "@ + profile.active
        },
{
    lemma_names_differ();
}

/// What was told comes into use: where the System76 daemon was told a command, and then
/// reports the profile of that command, the one in use is the one that was asked for. For
/// the power-profiles service that holds of every listed name.
pub proof fn told_profile_is_found_again(
    profile: ProfileView,
    descriptions: Seq<Vec<ProfileField>>,
)
    requires
        command(profile) is Ok,
    ensures
        ({
            let reported = reported_by(command(profile)->Ok_0);
            &&& profile.backend == ProfileBackend::System76 ==> (system76_outcome(
                reported,
            ) matches Ok(again) && again.active == profile.active)
            &&& profile.backend == ProfileBackend::Upower && normalized(profile.active) == Some(
                profile.active,
            ) ==> (upower_outcome(reported, descriptions) matches Ok(again) ==> again.active
                == profile.active)
        }),
{
    service_is_told_what_was_picked(profile);
}

/// A change that comes to a profile comes to the one that was asked for, and every reply
/// was good; one that fails has the reason of the first reply that was not, or of the
/// missing command where bus and service were reached.
pub proof fn change_gives_back_what_was_asked(
    profile: ProfileView,
    bus: Result<(), Seq<char>>,
    service: Result<(), Seq<char>>,
    told: Result<(), Seq<char>>,
)
    ensures
        ({
            let end = changed(profile, bus, service, told);
            &&& end is Ok <==> bus is Ok && service is Ok && command(profile) is Ok && told is Ok
            &&& end matches Ok(given) ==> given == profile
            &&& bus matches Err(reason) ==> end == Err::<ProfileView, Seq<char>>(reason)
            &&& bus is Ok ==> (service matches Err(reason) ==> end == Err::<
                ProfileView,
                Seq<char>,
            >(reason))
            &&& bus is Ok && service is Ok ==> (command(profile) matches Err(reason) ==> end
                == Err::<ProfileView, Seq<char>>(reason))
            &&& bus is Ok && service is Ok && command(profile) is Ok ==> (told matches Err(reason)
                ==> end == Err::<ProfileView, Seq<char>>(reason))
        }),
{
}

/// The view of a profile holds its service, its name in use and its choices, one for one.
pub proof fn profile_view_is_faithful(profile: PowerProfile, i: int, reason: String, at: usize)
    ensures
        profile@.backend == profile.backend,
        profile@.active == profile.active@,
        profile@.choices.len() == profile.choices@.len(),
        0 <= i < profile.choices@.len() ==> profile@.choices[i] == profile.choices@[i]@,
        optional_profile(Some(profile)) == Some(profile@),
        optional_profile(None) is None,
        profile_outcome(Ok(profile)) == Ok::<ProfileView, Seq<char>>(profile@),
        profile_outcome(Err(reason)) == Err::<ProfileView, Seq<char>>(reason@),
        position_of(Some(at)) == Some(at as nat),
        position_of(None) is None,
        ProfileCommand::Battery@ == CommandView::Battery,
        ProfileCommand::Balanced@ == CommandView::Balanced,
        ProfileCommand::Performance@ == CommandView::Performance,
        ProfileCommand::SetActiveProfile(reason)@ == CommandView::SetActiveProfile(reason@),
{
}

/// Each step of the search goes on where it was answered and ends with the reason where
/// it was not; only the System76 daemon may be silent.
pub proof fn search_steps_follow_the_replies(
    reason: Seq<char>,
    active: Seq<char>,
    descriptions: Seq<Vec<ProfileField>>,
)
    ensures
        SearchView::connected(Ok(())) == SearchView::PowerDaemon,
        SearchView::connected(Err(reason)) == SearchView::Done(Err(reason)),
        SearchView::power_daemon(Some(active)) == SearchView::Done(system76_outcome(active)),
        SearchView::power_daemon(None) == SearchView::PowerProfiles,
        SearchView::power_profiles(Ok(())) == SearchView::ActiveProfile,
        SearchView::power_profiles(Err(reason)) == SearchView::Done(Err(reason)),
        SearchView::active_profile(Ok(active)) == (SearchView::Descriptions { active }),
        SearchView::active_profile(Err(reason)) == SearchView::Done(Err(reason)),
        SearchView::descriptions(active, Ok(descriptions)) == SearchView::Done(
            upower_outcome(active, descriptions),
        ),
        SearchView::descriptions(active, Err(reason)) == SearchView::Done(Err(reason)),
{
}

/// The view of a search or a change is where it stands, with what it holds.
pub proof fn step_views_are_faithful(search: ProfileSearch, change: ProfileChange)
    ensures
        search is Connect <==> search@ is Connect,
        search is PowerDaemon <==> search@ is PowerDaemon,
        search is PowerProfiles <==> search@ is PowerProfiles,
        search is ActiveProfile <==> search@ is ActiveProfile,
        (search matches ProfileSearch::Descriptions { active } ==> search@ == (
        SearchView::Descriptions { active: active@ })),
        (search matches ProfileSearch::Done(Ok(profile)) ==> search@ == SearchView::Done(
            Ok(profile@),
        )),
        (search matches ProfileSearch::Done(Err(reason)) ==> search@ == SearchView::Done(
            Err(reason@),
        )),
        (change matches ProfileChange::Open(profile) ==> change@ == ChangeView::Open(profile@)),
        (change matches ProfileChange::Tell(profile, told) ==> change@ == ChangeView::Tell(
            profile@,
            told@,
        )),
        (change matches ProfileChange::Done(Ok(profile)) ==> change@ == ChangeView::Done(
            Ok(profile@),
        )),
        (change matches ProfileChange::Done(Err(reason)) ==> change@ == ChangeView::Done(
            Err(reason@),
        )),
{
}

/// Each step of a change goes on where it was answered and ends with the reason where it
/// was not; the profile stays the one that was asked for.
pub proof fn change_steps_follow_the_replies(profile: ProfileView, reason: Seq<char>)
    ensures
        ChangeView::connected(profile, Ok(())) == ChangeView::Open(profile),
        ChangeView::connected(profile, Err(reason)) == ChangeView::Done(Err(reason)),
        ChangeView::opened(profile, Err(reason)) == ChangeView::Done(Err(reason)),
        match command(profile) {
            Ok(told) => ChangeView::opened(profile, Ok(())) == ChangeView::Tell(profile, told),
            Err(refusal) => ChangeView::opened(profile, Ok(())) == ChangeView::Done(Err(refusal)),
        },
        ChangeView::told(profile, Ok(())) == ChangeView::Done(Ok(profile)),
        ChangeView::told(profile, Err(reason)) == ChangeView::Done(Err(reason)),
{
}

} // verus!
