//! The values handed to the broker client: its configuration and the
//! partition list of a manual assignment.

use crate::model::{contains_nul, ConnectionConfig, FetchError, PartitionLocation};
use rdkafka::config::ClientConfig;
use rdkafka::error::KafkaError;
use rdkafka::topic_partition_list::{Offset, TopicPartitionList};
use vstd::prelude::*;

verus! {

/// The client's configuration, opaque to the verifier.
#[verifier::external_type_specification]
#[verifier::external_body]
pub struct ExClientConfig(rdkafka::config::ClientConfig);

/// The client's list of topics, partitions and offsets, opaque to the verifier.
#[verifier::external_type_specification]
#[verifier::external_body]
pub struct ExTopicPartitionList(rdkafka::topic_partition_list::TopicPartitionList);

/// The client's error type, opaque to the verifier.
#[verifier::external_type_specification]
#[verifier::external_body]
pub struct ExKafkaError(rdkafka::error::KafkaError);

/// The parameters that a configuration holds, by key.
pub uninterp spec fn settings(config: ClientConfig) -> Map<Seq<char>, Seq<char>>;

/// The elements of a partition list in the order they were added: topic,
/// partition, and the offset as the client stores it.
pub uninterp spec fn entries(list: TopicPartitionList) -> Seq<(Seq<char>, i32, i64)>;

/// Some element of `list` names this topic and partition.
pub open spec fn lists_partition(
    list: Seq<(Seq<char>, i32, i64)>,
    topic: Seq<char>,
    partition: i32,
) -> bool {
    exists|i: int| 0 <= i < list.len() && (#[trigger] list[i]).0 == topic && list[i].1 == partition
}

/// A configuration in which no parameter is set.
pub open spec fn no_settings() -> Map<Seq<char>, Seq<char>> {
    Map::empty()
}

/// A partition list without elements.
pub open spec fn no_entries() -> Seq<(Seq<char>, i32, i64)> {
    Seq::empty()
}

/// The parameters of a consumer that reaches `brokers` as a member of `group_id`.
pub open spec fn consumer_settings(brokers: Seq<char>, group_id: Seq<char>) -> Map<
    Seq<char>,
    Seq<char>,
> {
    no_settings().insert("bootstrap.servers"@, brokers).insert("group.id"@, group_id)
}

/// `ClientConfig::new`: trusted to return a configuration in which no
/// parameter is set.
#[verifier::external_body]
fn empty_config() -> (res: ClientConfig)
    ensures
        settings(res) == no_settings(),
{
    ClientConfig::new()
}

/// `ClientConfig::set`: trusted to store `value` under `key`, in place of
/// any earlier value of that key, and to leave the other parameters alone.
#[verifier::external_body]
fn put_setting(config: &mut ClientConfig, key: &str, value: &str)
    ensures
        settings(*final(config)) == settings(*old(config)).insert(key@, value@),
{
    config.set(key, value);
}

/// `TopicPartitionList::new`: trusted to return a list without elements.
#[verifier::external_body]
fn empty_list() -> (res: TopicPartitionList)
    ensures
        entries(res) == no_entries(),
{
    TopicPartitionList::new()
}

/// `TopicPartitionList::add_partition_offset` with an absolute offset:
/// trusted to fail exactly on a negative offset and otherwise to append one
/// element with this topic, partition and offset. The call aborts on a topic
/// that holds a NUL character, and it sets the offset of the first element
/// of that topic and partition, so both are asked of the caller.
#[verifier::external_body]
fn add_entry(list: &mut TopicPartitionList, topic: &str, partition: i32, offset: i64) -> (res:
    Result<(), KafkaError>)
    requires
        !topic@.contains('\0'),
        !lists_partition(entries(*old(list)), topic@, partition),
    ensures
        res is Ok <==> offset >= 0,
        res is Ok ==> entries(*final(list)) == entries(*old(list)).push(
            (topic@, partition, offset),
        ),
{
    list.add_partition_offset(topic, partition, Offset::Offset(offset))
}

impl ConnectionConfig {
    /// The client configuration of a consumer for this connection: the
    /// broker list and the group, and nothing else.
    pub fn client_config(&self) -> (config: ClientConfig)
        ensures
            settings(config) == consumer_settings(self@.brokers, self@.group_id),
    {
        let mut config = empty_config();
        put_setting(&mut config, "bootstrap.servers", self.brokers.as_str());
        put_setting(&mut config, "group.id", self.group_id.as_str());
        config
    }
}

impl PartitionLocation {
    /// The partition list of a manual assignment to exactly this location.
    ///
    /// A topic with a NUL character and a negative partition index are
    /// refused here; a negative offset is refused by the client's list, and
    /// reported in the library's own words.
    pub fn assignment(&self) -> (res: Result<TopicPartitionList, FetchError>)
        ensures
            res is Ok <==> self@.assignable(),
            res matches Ok(list) ==> entries(list) == seq![
                (self.topic@, self.partition, self.offset),
            ],
            res matches Err(error) ==> error@ == self@.rejection(),
    {
        if contains_nul(self.topic.as_str()) {
            return Err(FetchError::Assignment("Topic name holds a NUL character".to_owned()));
        }
        if self.partition < 0 {
            return Err(FetchError::Assignment("Partition index is negative".to_owned()));
        }
        let mut list = empty_list();
        match add_entry(&mut list, self.topic.as_str(), self.partition, self.offset) {
            Ok(()) => {
                assert(entries(list) =~= seq![(self.topic@, self.partition, self.offset)]);
                Ok(list)
            },
            Err(_) => Err(FetchError::Assignment("Offset is negative".to_owned())),
        }
    }
}

} // verus!
