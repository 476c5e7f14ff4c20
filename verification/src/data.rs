//! What the bot keeps between commands: the data of each user and of each
//! guild, created when it is first asked for.

use crate::error::UserError;
use crate::metadata::{QueueMeta, TrackMetadata};
use std::collections::HashMap;
use std::collections::HashSet;
use vstd::prelude::*;

verus! {

/// Data stored on a per-user basis.
#[derive(Clone, Copy, Debug, PartialEq, Eq, Structural)]
pub struct UserData {}

impl Default for UserData {
    fn default() -> (data: Self)
        ensures
            data == (UserData {  }),
    {
        UserData {  }
    }
}

/// Data stored on a per-guild basis.
#[derive(Debug)]
pub struct GuildData {
    /// Metadata of tracks in queue
    pub queue_metadata: QueueMeta,
}

impl Default for GuildData {
    fn default() -> (data: Self)
        ensures
            data.queue_metadata@ == Seq::<TrackMetadata>::empty(),
    {
        GuildData { queue_metadata: QueueMeta::new() }
    }
}

/// The metadata queue that `guilds` holds for `guild`: empty for a guild
/// that has no record yet.
pub open spec fn metadata_of(guilds: Map<u64, Seq<TrackMetadata>>, guild: u64) -> Seq<
    TrackMetadata,
> {
    if guilds.contains_key(guild) {
        guilds[guild]
    } else {
        Seq::empty()
    }
}

/// The records of all guilds, by guild. A record is created when it is first
/// asked for and stays from then on.
#[derive(Debug)]
pub struct GuildDataStore {
    guilds: HashMap<u64, GuildData>,
}

impl View for GuildDataStore {
    type V = Map<u64, Seq<TrackMetadata>>;

    closed spec fn view(&self) -> Map<u64, Seq<TrackMetadata>> {
        queues_of(self.guilds@)
    }
}

/// The metadata queue of each record.
spec fn queues_of(records: Map<u64, GuildData>) -> Map<u64, Seq<TrackMetadata>> {
    Map::new(
        |guild: u64| records.contains_key(guild),
        |guild: u64| records[guild].queue_metadata@,
    )
}

/// A record that is put in shows as its metadata queue.
proof fn lemma_queues_of_insert()
    ensures
        forall|records: Map<u64, GuildData>, guild: u64, data: GuildData| #[trigger]
            queues_of(records.insert(guild, data)) == queues_of(records).insert(
                guild,
                data.queue_metadata@,
            ),
{
    assert forall|records: Map<u64, GuildData>, guild: u64, data: GuildData| #[trigger]
        queues_of(records.insert(guild, data)) == queues_of(records).insert(
            guild,
            data.queue_metadata@,
        ) by {
    }
}

impl GuildDataStore {
    /// A store without records.
    pub fn new() -> (store: Self)
        ensures
            store@ == Map::<u64, Seq<TrackMetadata>>::empty(),
    {
        broadcast use vstd::std_specs::hash::group_hash_axioms;

        let store = GuildDataStore { guilds: HashMap::new() };
        store
    }

    /// Whether the guild has a record.
    pub fn contains(&self, guild: u64) -> (known: bool)
        ensures
            known == self@.contains_key(guild),
    {
        broadcast use vstd::std_specs::hash::group_hash_axioms;

        self.guilds.contains_key(&guild)
    }

    /// The number of guilds with a record.
    pub fn len(&self) -> (len: usize)
        ensures
            len == self@.dom().len(),
    {
        broadcast use vstd::std_specs::hash::group_hash_axioms;

        assert(self@.dom() =~= self.guilds@.dom());
        self.guilds.len()
    }

    /// The record of `guild`, created with an empty metadata queue if the
    /// guild had none. What the caller does to the record is what the store
    /// holds for the guild afterwards; no other record changes.
    pub fn get(&mut self, guild: u64) -> (data: &mut GuildData)
        ensures
            data.queue_metadata@ == metadata_of(old(self)@, guild),
            final(self)@ == old(self)@.insert(guild, final(data).queue_metadata@),
    {
        broadcast use vstd::std_specs::hash::group_hash_axioms;

        proof {
            lemma_queues_of_insert();
        }
        self.guilds.entry(guild).or_insert(GuildData::default())
    }
}

/// The data kept between commands.
#[derive(Debug)]
pub struct Data {
    /// List of users to send bug notifications
    pub notify_list: HashSet<u64>,
    /// Per-User data
    pub user_data: HashMap<u64, UserData>,
    /// Per-Guild data
    pub guild_data: GuildDataStore,
}

impl Data {
    /// Data with no record of any user or guild, and nobody to notify.
    pub fn new() -> (data: Self)
        ensures
            data.notify_list@ == Set::<u64>::empty(),
            data.user_data@ == Map::<u64, UserData>::empty(),
            data.guild_data@ == Map::<u64, Seq<TrackMetadata>>::empty(),
    {
        Data {
            notify_list: HashSet::new(),
            user_data: HashMap::new(),
            guild_data: GuildDataStore::new(),
        }
    }

    /// The record of `user`, created if the user had none.
    pub fn user_data(&mut self, user: u64) -> (data: UserData)
        ensures
            data == (UserData {  }),
            final(self).user_data@ == old(self).user_data@.insert(user, UserData {  }),
            final(self).notify_list == old(self).notify_list,
            final(self).guild_data == old(self).guild_data,
    {
        broadcast use vstd::std_specs::hash::group_hash_axioms;

        let data = self.user_data.entry(user).or_insert(UserData::default());
        *data
    }

    /// The record of the guild that a command came from, created if the
    /// guild had none. A command from outside a guild has none.
    pub fn guild_data(&mut self, guild: Option<u64>) -> (data: Result<&mut GuildData, UserError>)
        ensures
            guild is None ==> data is Err && data->Err_0 == UserError::GuildOnly && *final(self)
                == *old(self),
            guild matches Some(id) ==> data is Ok && data->Ok_0.queue_metadata@ == metadata_of(
                old(self).guild_data@,
                id,
            ) && final(self).guild_data@ == old(self).guild_data@.insert(
                id,
                final(data->Ok_0).queue_metadata@,
            ) && final(self).notify_list == old(self).notify_list && final(self).user_data == old(
                self,
            ).user_data,
    {
        match guild {
            None => Err(UserError::GuildOnly),
            Some(id) => Ok(self.guild_data.get(id)),
        }
    }
}

} // verus!
