//! Provenance records: who sent a message, with what authority, and the
//! integrity digest of what was sent.

use vstd::prelude::*;

verus! {

/// The sender's authority at send time.
#[derive(Debug, Clone, PartialEq, Eq)]
pub struct ChannelMessageAuthorModel {
    pub id: u64,
    pub is_owner: bool,
    pub permissions: u64,
    pub role_ids: Vec<u64>,
}

/// The ledger entry of one sent message, keyed by `message_id`.
#[derive(Debug, Clone, PartialEq, Eq)]
pub struct ChannelMessageModel {
    pub channel_id: u64,
    pub message_id: u64,
    pub hash: String,
    pub created_at: i64,
    pub updated_at: i64,
    pub author: Option<ChannelMessageAuthorModel>,
}

/// What an author snapshot holds.
pub ghost struct AuthorView {
    pub id: u64,
    pub is_owner: bool,
    pub permissions: u64,
    pub role_ids: Seq<u64>,
}

/// What a provenance record holds.
pub ghost struct RecordView {
    pub channel_id: u64,
    pub message_id: u64,
    pub hash: Seq<char>,
    pub created_at: i64,
    pub updated_at: i64,
    pub author: Option<AuthorView>,
}

impl View for ChannelMessageAuthorModel {
    type V = AuthorView;

    open spec fn view(&self) -> AuthorView {
        AuthorView {
            id: self.id,
            is_owner: self.is_owner,
            permissions: self.permissions,
            role_ids: self.role_ids@,
        }
    }
}

/// What an optional author snapshot holds.
pub open spec fn author_view(author: Option<ChannelMessageAuthorModel>) -> Option<AuthorView> {
    match author {
        Some(a) => Some(a@),
        None => None,
    }
}

impl View for ChannelMessageModel {
    type V = RecordView;

    open spec fn view(&self) -> RecordView {
        RecordView {
            channel_id: self.channel_id,
            message_id: self.message_id,
            hash: self.hash@,
            created_at: self.created_at,
            updated_at: self.updated_at,
            author: author_view(self.author),
        }
    }
}

/// An upsert against the provenance collection, keyed by `message_id`: the
/// fields that are written in any case, and those that are written only when
/// the upsert inserts a new record.
#[derive(Debug, PartialEq, Eq)]
pub struct ProvenanceUpsert {
    pub message_id: u64,
    pub set_hash: String,
    pub set_updated_at: i64,
    pub insert_channel_id: u64,
    pub insert_created_at: i64,
    pub insert_author: Option<ChannelMessageAuthorModel>,
}

/// What an upsert holds.
pub ghost struct UpsertView {
    pub message_id: u64,
    pub set_hash: Seq<char>,
    pub set_updated_at: i64,
    pub insert_channel_id: u64,
    pub insert_created_at: i64,
    pub insert_author: Option<AuthorView>,
}

impl View for ProvenanceUpsert {
    type V = UpsertView;

    open spec fn view(&self) -> UpsertView {
        UpsertView {
            message_id: self.message_id,
            set_hash: self.set_hash@,
            set_updated_at: self.set_updated_at,
            insert_channel_id: self.insert_channel_id,
            insert_created_at: self.insert_created_at,
            insert_author: author_view(self.insert_author),
        }
    }
}

/// The upsert that stores `record`.
pub open spec fn upsert_of(record: RecordView) -> UpsertView {
    UpsertView {
        message_id: record.message_id,
        set_hash: record.hash,
        set_updated_at: record.updated_at,
        insert_channel_id: record.channel_id,
        insert_created_at: record.created_at,
        insert_author: record.author,
    }
}

/// The record under the upsert's key after the upsert, given the record that
/// was there before. An existing record takes the new digest and update time
/// and keeps everything else; without one, the record is created whole.
pub open spec fn upserted(existing: Option<RecordView>, upsert: UpsertView) -> RecordView {
    match existing {
        Some(record) => RecordView {
            hash: upsert.set_hash,
            updated_at: upsert.set_updated_at,
            ..record
        },
        None => RecordView {
            channel_id: upsert.insert_channel_id,
            message_id: upsert.message_id,
            hash: upsert.set_hash,
            created_at: upsert.insert_created_at,
            updated_at: upsert.set_updated_at,
            author: upsert.insert_author,
        },
    }
}

impl ChannelMessageAuthorModel {
    /// A copy of this snapshot.
    pub fn duplicate(&self) -> (copy: ChannelMessageAuthorModel)
        ensures
            copy@ == self@,
    {
        ChannelMessageAuthorModel {
            id: self.id,
            is_owner: self.is_owner,
            permissions: self.permissions,
            role_ids: self.role_ids.clone(),
        }
    }
}

/// A copy of an optional author snapshot.
pub fn duplicate_author(author: &Option<ChannelMessageAuthorModel>) -> (copy: Option<
    ChannelMessageAuthorModel,
>)
    ensures
        author_view(copy) == author_view(*author),
{
    match author {
        Some(a) => Some(a.duplicate()),
        None => None,
    }
}

impl ChannelMessageModel {
    /// The upsert that stores this record: the digest and the update time are
    /// written in any case; the channel, the creation time and the author
    /// snapshot only if no record of this message exists yet.
    pub fn update_or_create(&self) -> (upsert: ProvenanceUpsert)
        ensures
            upsert@ == upsert_of(self@),
    {
        ProvenanceUpsert {
            message_id: self.message_id,
            set_hash: self.hash.clone(),
            set_updated_at: self.updated_at,
            insert_channel_id: self.channel_id,
            insert_created_at: self.created_at,
            insert_author: duplicate_author(&self.author),
        }
    }
}

impl ProvenanceUpsert {
    /// Carries the upsert out on the record found under its key, if any, and
    /// returns the record that the collection holds afterwards.
    pub fn apply(self, existing: Option<ChannelMessageModel>) -> (stored: ChannelMessageModel)
        ensures
            stored@ == upserted(
                match existing {
                    Some(record) => Some(record@),
                    None => None,
                },
                self@,
            ),
    {
        match existing {
            Some(record) => ChannelMessageModel {
                channel_id: record.channel_id,
                message_id: record.message_id,
                hash: self.set_hash,
                created_at: record.created_at,
                updated_at: self.set_updated_at,
                author: record.author,
            },
            None => ChannelMessageModel {
                channel_id: self.insert_channel_id,
                message_id: self.message_id,
                hash: self.set_hash,
                created_at: self.insert_created_at,
                updated_at: self.set_updated_at,
                author: self.insert_author,
            },
        }
    }
}

/// Storing two records one after the other under one message id leaves the
/// channel, the creation time and the author snapshot as they were after the
/// first, and the digest and the update time as the second gives them.
pub proof fn lemma_second_upsert_updates_only_digest(
    existing: Option<RecordView>,
    first: RecordView,
    second: RecordView,
)
    requires
        first.message_id == second.message_id,
        existing matches Some(record) ==> record.message_id == first.message_id,
    ensures
        ({
            let once = upserted(existing, upsert_of(first));
            let twice = upserted(Some(once), upsert_of(second));
            &&& twice.message_id == first.message_id
            &&& twice.channel_id == once.channel_id
            &&& twice.created_at == once.created_at
            &&& twice.author == once.author
            &&& twice.hash == second.hash
            &&& twice.updated_at == second.updated_at
            &&& existing is None ==> twice.channel_id == first.channel_id && twice.created_at
                == first.created_at
        }),
{
}

/// Storing the same record twice is the same as storing it once.
pub proof fn lemma_upsert_idempotent(existing: Option<RecordView>, record: RecordView)
    ensures
        upserted(Some(upserted(existing, upsert_of(record))), upsert_of(record)) == upserted(
            existing,
            upsert_of(record),
        ),
{
}

} // verus!
