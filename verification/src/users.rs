//! The users of the bot and their settings.
use vstd::prelude::*;

verus! {

/// The settings of one user.
#[derive(Clone, Copy, Debug, PartialEq, Eq, Structural)]
pub struct UserSettings {
    pub restart_notifications: bool,
    pub voice_search: bool,
    pub song_recognition: bool,
}

/// The settings of a user who has changed none.
pub open spec fn fresh() -> UserSettings {
    UserSettings { restart_notifications: false, voice_search: true, song_recognition: true }
}

impl Default for UserSettings {
    fn default() -> (r: UserSettings)
        ensures
            r == fresh(),
    {
        UserSettings { restart_notifications: false, voice_search: true, song_recognition: true }
    }
}

/// A setting that can be turned on and off.
#[derive(Clone, Copy, Debug, PartialEq, Eq, Structural)]
pub enum Toggle {
    RestartNotifications,
    VoiceSearch,
    SongRecognition,
}

/// The settings with one of them turned the other way.
pub open spec fn toggled(s: UserSettings, which: Toggle) -> UserSettings {
    match which {
        Toggle::RestartNotifications => UserSettings {
            restart_notifications: !s.restart_notifications,
            ..s
        },
        Toggle::VoiceSearch => UserSettings { voice_search: !s.voice_search, ..s },
        Toggle::SongRecognition => UserSettings { song_recognition: !s.song_recognition, ..s },
    }
}

/// The state of one of the settings.
pub open spec fn is_on(s: UserSettings, which: Toggle) -> bool {
    match which {
        Toggle::RestartNotifications => s.restart_notifications,
        Toggle::VoiceSearch => s.voice_search,
        Toggle::SongRecognition => s.song_recognition,
    }
}

impl UserSettings {
    /// The settings with one of them turned the other way.
    pub fn toggle(self, which: Toggle) -> (r: UserSettings)
        ensures
            r == toggled(self, which),
    {
        match which {
            Toggle::RestartNotifications => UserSettings {
                restart_notifications: !self.restart_notifications,
                ..self
            },
            Toggle::VoiceSearch => UserSettings { voice_search: !self.voice_search, ..self },
            Toggle::SongRecognition => UserSettings {
                song_recognition: !self.song_recognition,
                ..self
            },
        }
    }

    /// The state of one of the settings.
    pub fn get(&self, which: Toggle) -> (r: bool)
        ensures
            r == is_on(*self, which),
    {
        match which {
            Toggle::RestartNotifications => self.restart_notifications,
            Toggle::VoiceSearch => self.voice_search,
            Toggle::SongRecognition => self.song_recognition,
        }
    }
}

// ---- The store -----------------------------------------------------------------------------

/// The users that the bot knows, in the order in which they came, with their settings. No user
/// stands there twice.
pub struct Users {
    entries: Vec<(i64, UserSettings)>,
}

/// The users that the bot knows, with their settings.
pub type UsersV = Seq<(i64, UserSettings)>;

impl View for Users {
    type V = UsersV;

    closed spec fn view(&self) -> UsersV {
        self.entries@
    }
}

/// Where a user stands: behind all where the bot does not know the user.
pub open spec fn place_of(users: UsersV, id: i64) -> int
    decreases users.len(),
{
    if users.len() == 0 || users[0].0 == id {
        0
    } else {
        1 + place_of(users.drop_first(), id)
    }
}

/// The bot knows the user.
pub open spec fn is_known(users: UsersV, id: i64) -> bool {
    place_of(users, id) < users.len()
}

/// The settings of a user, the fresh ones where the bot does not know the user.
pub open spec fn settings_of(users: UsersV, id: i64) -> UserSettings {
    if is_known(users, id) {
        users[place_of(users, id)].1
    } else {
        fresh()
    }
}

/// The users once this one is known too.
pub open spec fn with_user(users: UsersV, id: i64) -> UsersV {
    if is_known(users, id) {
        users
    } else {
        users.push((id, fresh()))
    }
}

/// The users once one of them has these settings.
pub open spec fn with_settings(users: UsersV, id: i64, s: UserSettings) -> UsersV {
    if is_known(users, id) {
        users.update(place_of(users, id), (id, s))
    } else {
        users.push((id, s))
    }
}

/// No user stands there twice.
pub open spec fn distinct(users: UsersV) -> bool {
    forall|i: int, j: int| 0 <= i < j < users.len() ==> users[i].0 != users[j].0
}

/// The users who want to hear of a restart, in order.
pub open spec fn notified(users: UsersV) -> Seq<i64>
    decreases users.len(),
{
    if users.len() == 0 {
        Seq::empty()
    } else if users.last().1.restart_notifications {
        notified(users.drop_last()).push(users.last().0)
    } else {
        notified(users.drop_last())
    }
}

proof fn place_is_first(users: UsersV, id: i64)
    ensures
        0 <= place_of(users, id) <= users.len(),
        forall|k: int| 0 <= k < place_of(users, id) ==> users[k].0 != id,
        is_known(users, id) ==> users[place_of(users, id)].0 == id,
    decreases users.len(),
{
    if users.len() > 0 && users[0].0 != id {
        let rest = users.drop_first();
        place_is_first(rest, id);
        assert forall|k: int| 0 <= k < place_of(users, id) implies users[k].0 != id by {
            if k > 0 {
                assert(users[k] == rest[k - 1]);
            }
        }
    }
}

proof fn place_is_unique(users: UsersV, id: i64, p: int)
    requires
        0 <= p <= users.len(),
        forall|k: int| 0 <= k < p ==> users[k].0 != id,
        p < users.len() ==> users[p].0 == id,
    ensures
        place_of(users, id) == p,
{
    place_is_first(users, id);
}

impl Users {
    #[verifier::type_invariant]
    spec fn inv(self) -> bool {
        distinct(self.entries@)
    }

    /// No users yet.
    pub fn new() -> (r: Users)
        ensures
            r@ == Seq::<(i64, UserSettings)>::empty(),
    {
        Users { entries: Vec::new() }
    }

    fn find(&self, id: i64) -> (r: usize)
        ensures
            r == place_of(self@, id),
            r <= self@.len(),
    {
        let mut i: usize = 0;
        while i < self.entries.len() && self.entries[i].0 != id
            invariant
                i <= self.entries@.len(),
                forall|k: int| 0 <= k < i ==> self.entries@[k].0 != id,
            decreases self.entries@.len() - i,
        {
            i = i + 1;
        }
        proof {
            place_is_unique(self@, id, i as int);
        }
        i
    }

    /// The settings of a user; the bot knows the user from here on.
    pub fn get_or_create(&mut self, id: i64) -> (r: UserSettings)
        ensures
            r == settings_of(old(self)@, id),
            final(self)@ == with_user(old(self)@, id),
            distinct(old(self)@),
            distinct(final(self)@),
    {
        proof {
            use_type_invariant(&*self);
            users_stay_distinct(self@, id, fresh());
        }
        let at: usize = self.find(id);
        if at < self.entries.len() {
            self.entries[at].1
        } else {
            let s = UserSettings::default();
            self.put(id, s);
            s
        }
    }

    /// Gives a user these settings.
    pub fn put(&mut self, id: i64, s: UserSettings)
        ensures
            final(self)@ == with_settings(old(self)@, id, s),
            distinct(final(self)@),
    {
        proof {
            use_type_invariant(&*self);
            users_stay_distinct(self@, id, s);
        }
        let at: usize = self.find(id);
        let mut entries: Vec<(i64, UserSettings)> = Vec::new();
        std::mem::swap(&mut entries, &mut self.entries);
        if at < entries.len() {
            entries.set(at, (id, s));
        } else {
            entries.push((id, s));
        }
        self.entries = entries;
    }

    /// Turns one of the settings of a user the other way, and gives the settings that come out.
    pub fn update(&mut self, id: i64, which: Toggle) -> (r: UserSettings)
        ensures
            r == toggled(settings_of(old(self)@, id), which),
            final(self)@ == with_settings(old(self)@, id, r),
            distinct(final(self)@),
    {
        let at: usize = self.find(id);
        let s = if at < self.entries.len() {
            self.entries[at].1
        } else {
            UserSettings::default()
        };
        let changed = s.toggle(which);
        self.put(id, changed);
        changed
    }

    /// How many users the bot knows.
    pub fn len(&self) -> (r: usize)
        ensures
            r == self@.len(),
            distinct(self@),
    {
        proof {
            use_type_invariant(self);
        }
        self.entries.len()
    }

    /// One of the users, by place, with the settings.
    pub fn entry(&self, i: usize) -> (r: (i64, UserSettings))
        requires
            i < self@.len(),
        ensures
            r == self@[i as int],
    {
        self.entries[i]
    }

    /// The users who want to hear of a restart: exactly those who have the setting on, and nobody
    /// twice.
    pub fn all_with_notifications(&self) -> (r: Vec<i64>)
        ensures
            r@ == notified(self@),
            r@.no_duplicates(),
            forall|id: i64| #[trigger]
                r@.contains(id) <==> is_known(self@, id) && settings_of(
                    self@,
                    id,
                ).restart_notifications,
    {
        let mut out: Vec<i64> = Vec::new();
        let mut i: usize = 0;
        while i < self.entries.len()
            invariant
                i <= self.entries@.len(),
                out@ == notified(self@.take(i as int)),
            decreases self.entries@.len() - i,
        {
            assert(self@.take(i + 1).drop_last() =~= self@.take(i as int));
            if self.entries[i].1.restart_notifications {
                out.push(self.entries[i].0);
            }
            i = i + 1;
        }
        assert(self@.take(i as int) =~= self@);
        proof {
            use_type_invariant(self);
            nobody_is_notified_twice(self@);
            assert forall|id: i64| #[trigger]
                out@.contains(id) <==> is_known(self@, id) && settings_of(
                    self@,
                    id,
                ).restart_notifications by {
                only_the_willing_are_notified(self@, id);
            }
        }
        out
    }
}

// ---- Laws ----------------------------------------------------------------------------------

/// A setting that is turned twice is as it was.
pub proof fn toggling_twice_restores(s: UserSettings, which: Toggle)
    ensures
        toggled(toggled(s, which), which) == s,
        is_on(toggled(s, which), which) == !is_on(s, which),
{
}

/// Every user has settings of their own: what is stored for a user is read back, and the settings
/// of everyone else stay as they were.
pub proof fn settings_are_per_user(users: UsersV, id: i64, s: UserSettings, other: i64)
    ensures
        settings_of(with_settings(users, id, s), id) == s,
        is_known(with_settings(users, id, s), id),
        other != id ==> settings_of(with_settings(users, id, s), other) == settings_of(
            users,
            other,
        ),
        settings_of(with_user(users, id), other) == settings_of(users, other),
        is_known(with_user(users, id), id),
{
    place_is_first(users, id);
    place_is_first(users, other);
    let after = with_settings(users, id, s);
    place_is_unique(after, id, place_of(users, id));
    let p = place_of(users, other);
    if other != id {
        if is_known(users, other) {
            place_is_unique(after, other, p);
        } else {
            place_is_unique(after, other, after.len() as int);
        }
    }
    let known = with_user(users, id);
    place_is_unique(known, id, place_of(users, id));
    if is_known(users, other) {
        place_is_unique(known, other, p);
    } else if other == id {
    } else {
        place_is_unique(known, other, known.len() as int);
    }
}

/// Settings of one user make nobody else known.
pub proof fn others_stay_known(users: UsersV, id: i64, s: UserSettings, other: i64)
    requires
        other != id,
    ensures
        is_known(with_settings(users, id, s), other) == is_known(users, other),
{
    place_is_first(users, id);
    place_is_first(users, other);
    let after = with_settings(users, id, s);
    if is_known(users, other) {
        place_is_unique(after, other, place_of(users, other));
    } else {
        place_is_unique(after, other, after.len() as int);
    }
}

/// However the store is used, no user comes to stand there twice.
pub proof fn users_stay_distinct(users: UsersV, id: i64, s: UserSettings)
    requires
        distinct(users),
    ensures
        distinct(with_user(users, id)),
        distinct(with_settings(users, id, s)),
{
    place_is_first(users, id);
}

/// A user who is made known and then given settings is in the store as if given them at once.
pub proof fn known_users_get_settings(users: UsersV, id: i64, s: UserSettings)
    ensures
        with_settings(with_user(users, id), id, s) == with_settings(users, id, s),
{
    settings_are_per_user(users, id, s, id);
    place_is_first(users, id);
    let known = with_user(users, id);
    place_is_unique(known, id, place_of(users, id));
    assert(with_settings(known, id, s) =~= with_settings(users, id, s));
}

/// Nobody hears of a restart twice.
pub proof fn nobody_is_notified_twice(users: UsersV)
    requires
        distinct(users),
    ensures
        notified(users).no_duplicates(),
    decreases users.len(),
{
    if users.len() > 0 {
        let shorter = users.drop_last();
        let rest = notified(shorter);
        nobody_is_notified_twice(shorter);
        only_the_willing_are_notified(shorter, users.last().0);
        place_is_first(shorter, users.last().0);
        if rest.contains(users.last().0) {
            let p = place_of(shorter, users.last().0);
            assert(users[p].0 != users[users.len() - 1].0);
        }
        if users.last().1.restart_notifications {
            assert forall|i: int, j: int|
                0 <= i < notified(users).len() && 0 <= j < notified(users).len() && i != j implies
                notified(users)[i] != notified(users)[j] by {
                if i == rest.len() {
                    assert(rest[j] == notified(users)[j]);
                    assert(rest.contains(rest[j]));
                } else if j == rest.len() {
                    assert(rest[i] == notified(users)[i]);
                    assert(rest.contains(rest[i]));
                }
            }
        }
    }
}

/// Exactly the users who have turned restart notifications on hear of a restart.
pub proof fn only_the_willing_are_notified(users: UsersV, id: i64)
    requires
        distinct(users),
    ensures
        notified(users).contains(id) <==> is_known(users, id) && settings_of(
            users,
            id,
        ).restart_notifications,
    decreases users.len(),
{
    place_is_first(users, id);
    if users.len() > 0 {
        let shorter = users.drop_last();
        let rest = notified(shorter);
        only_the_willing_are_notified(shorter, id);
        place_is_first(shorter, id);
        if users.last().0 == id {
            assert(place_of(users, id) == users.len() - 1) by {
                if place_of(users, id) < users.len() - 1 {
                    assert(users[place_of(users, id)].0 != users[users.len() - 1].0);
                }
            }
            if is_known(shorter, id) {
                assert(shorter[place_of(shorter, id)] == users[place_of(shorter, id)]);
                assert(users[place_of(shorter, id)].0 != users[users.len() - 1].0);
                assert(false);
            }
            if users.last().1.restart_notifications {
                assert(rest.push(id)[rest.len() as int] == id);
            }
        } else {
            if is_known(users, id) {
                place_is_unique(shorter, id, place_of(users, id));
            } else {
                place_is_unique(shorter, id, shorter.len() as int);
            }
            if rest.contains(id) {
                let k = choose|k: int| 0 <= k < rest.len() && rest[k] == id;
                assert(notified(users)[k] == id);
            }
            if notified(users).contains(id) {
                let k = choose|k: int| 0 <= k < notified(users).len() && notified(users)[k] == id;
                assert(k < rest.len());
                assert(rest[k] == id);
            }
        }
    }
}

/// A new user hears of no restart, and has voice search and song recognition on.
pub proof fn new_users_start_with_the_defaults(users: UsersV, id: i64)
    requires
        forall|i: int| 0 <= i < users.len() ==> (#[trigger] users[i]).0 != id,
    ensures
        !settings_of(users, id).restart_notifications,
        settings_of(users, id).voice_search,
        settings_of(users, id).song_recognition,
        with_user(users, id) == users.push((id, settings_of(users, id))),
{
    place_is_unique(users, id, users.len() as int);
}

/// A known user has the settings that are stored, and is stored once more by nothing.
pub proof fn known_users_keep_their_settings(users: UsersV, i: int)
    requires
        distinct(users),
        0 <= i < users.len(),
    ensures
        settings_of(users, users[i].0) == users[i].1,
        with_user(users, users[i].0) == users,
        is_known(users, users[i].0),
{
    assert forall|k: int| 0 <= k < i implies users[k].0 != users[i].0 by {
    }
    place_is_unique(users, users[i].0, i);
}

/// Turning a setting turns that one and no other.
pub proof fn toggles_turn_one_setting(s: UserSettings)
    ensures
        ({
            let t = toggled(s, Toggle::RestartNotifications);
            &&& t.restart_notifications == !s.restart_notifications
            &&& t.voice_search == s.voice_search && t.song_recognition == s.song_recognition
        }),
        ({
            let t = toggled(s, Toggle::VoiceSearch);
            &&& t.voice_search == !s.voice_search
            &&& t.restart_notifications == s.restart_notifications && t.song_recognition
                == s.song_recognition
        }),
        ({
            let t = toggled(s, Toggle::SongRecognition);
            &&& t.song_recognition == !s.song_recognition
            &&& t.restart_notifications == s.restart_notifications && t.voice_search
                == s.voice_search
        }),
        is_on(s, Toggle::RestartNotifications) == s.restart_notifications,
        is_on(s, Toggle::VoiceSearch) == s.voice_search,
        is_on(s, Toggle::SongRecognition) == s.song_recognition,
{
}

/// Those who want to hear of a restart hear of it in the order in which they came.
pub proof fn restarts_are_told_in_order(users: UsersV)
    ensures
        notified(users) == users.filter(
            |u: (i64, UserSettings)| u.1.restart_notifications,
        ).map_values(|u: (i64, UserSettings)| u.0),
    decreases users.len(),
{
    reveal(Seq::filter);
    if users.len() > 0 {
        restarts_are_told_in_order(users.drop_last());
    }
    assert(notified(users) =~= users.filter(
        |u: (i64, UserSettings)| u.1.restart_notifications,
    ).map_values(|u: (i64, UserSettings)| u.0));
}

} // verus!
