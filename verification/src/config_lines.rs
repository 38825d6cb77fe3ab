//! The configuration text line by line: which lines it is made of, and which
//! section headers stand in it, in which order.

use crate::config::{
    broker_section, config_text, metrics_section, mirror_section, mirroring_enabled, number_line,
    object_store_block, quoted_line, source_block, source_blocks, storage_section,
    tiered_section, tiering_enabled, topic_list, retention_hours_of, segment_bytes_of,
};
use crate::crd::{
    MirrorConfigView, MirrorSourceView, S3ConfigView, ShazamqClusterSpecView, StorageConfigView,
    TieredStorageConfigView,
};
use crate::lines::{
    all_newline_free, headers, is_header, join_lines, lemma_add_lines, lemma_header_is_listed,
    lemma_lines_of_join, lemma_push_line, lines_of, newline, newline_free, none_starts_with,
    starts_with,
};
use crate::text::{decimal_digits, decimal_text};
use vstd::prelude::*;
use vstd::string::*;

verus! {

/// No lines.
pub open spec fn no_lines() -> Seq<Seq<char>> {
    Seq::empty()
}

/// The empty line.
pub open spec fn blank() -> Seq<char> {
    Seq::empty()
}

/// A line that gives `key` the text `value`, in double quotes.
pub open spec fn quoted_content(key: Seq<char>, value: Seq<char>) -> Seq<char> {
    key + " = \""@ + value + "\""@
}

/// The lines of the network and identity section.
pub open spec fn broker_lines() -> Seq<Seq<char>> {
    no_lines().push("[broker]"@).push("host = \"0.0.0.0\""@).push("port = 9092"@).push(
        "data_dir = \"/data/shazamq\""@,
    ).push(blank())
}

/// The line that gives `key` a number, or none where there is no number.
pub open spec fn number_lines(key: Seq<char>, value: Option<int>) -> Seq<Seq<char>> {
    match value {
        Some(n) => no_lines().push(key + " = "@ + decimal_text(n)),
        None => no_lines(),
    }
}

/// The lines of the storage section.
pub open spec fn storage_lines(storage: Option<StorageConfigView>) -> Seq<Seq<char>> {
    no_lines().push("[storage]"@) + number_lines("segment_bytes"@, segment_bytes_of(storage))
        + number_lines("retention_hours"@, retention_hours_of(storage)) + no_lines().push(blank())
}

/// The lines of the metrics section.
pub open spec fn metrics_lines() -> Seq<Seq<char>> {
    no_lines().push("[metrics]"@).push("enabled = true"@).push("host = \"0.0.0.0\""@).push(
        "port = 9090"@,
    ).push(blank())
}

/// The lines of the object store block.
pub open spec fn object_store_lines(s3: Option<S3ConfigView>) -> Seq<Seq<char>> {
    match s3 {
        Some(s) => no_lines().push(blank()).push("[tiered_storage.s3]"@).push(
            quoted_content("bucket"@, s.bucket),
        ).push(quoted_content("region"@, s.region)).push(quoted_content("prefix"@, s.prefix)),
        None => no_lines(),
    }
}

/// The lines of the tiered-storage section.
pub open spec fn tiered_lines(tiered: Option<TieredStorageConfigView>) -> Seq<Seq<char>> {
    if tiering_enabled(tiered) {
        no_lines().push("[tiered_storage]"@).push("enabled = true"@).push(
            quoted_content("provider"@, tiered->0.provider),
        ) + object_store_lines(tiered->0.s3) + no_lines().push(blank())
    } else {
        no_lines()
    }
}

/// The lines of the block of one mirror source.
pub open spec fn source_lines(source: MirrorSourceView) -> Seq<Seq<char>> {
    no_lines().push("[[mirror.sources]]"@).push(quoted_content("name"@, source.name)).push(
        quoted_content("bootstrap_servers"@, source.bootstrap_servers),
    ).push(quoted_content("security_protocol"@, source.security_protocol)).push(
        quoted_content("consumer_group_id"@, source.consumer_group_id),
    ).push("topic_whitelist = ["@ + topic_list(source.topic_whitelist) + "]"@).push(blank())
}

/// The lines of the blocks of all mirror sources.
pub open spec fn all_source_lines(sources: Seq<MirrorSourceView>) -> Seq<Seq<char>>
    decreases sources.len(),
{
    if sources.len() == 0 {
        no_lines()
    } else {
        all_source_lines(sources.drop_last()) + source_lines(sources.last())
    }
}

/// The lines of the mirror section.
pub open spec fn mirror_lines(mirror: Option<MirrorConfigView>) -> Seq<Seq<char>> {
    if mirroring_enabled(mirror) {
        no_lines().push("[mirror]"@).push("enabled = true"@).push(blank()) + all_source_lines(
            mirror->0.sources,
        )
    } else {
        no_lines()
    }
}

/// The lines of the whole configuration text.
pub open spec fn config_lines(spec: ShazamqClusterSpecView) -> Seq<Seq<char>> {
    broker_lines() + storage_lines(spec.storage) + metrics_lines() + tiered_lines(
        spec.tiered_storage,
    ) + mirror_lines(spec.mirror)
}

/// The headers of the tiered-storage section.
pub open spec fn tiered_headers(tiered: Option<TieredStorageConfigView>) -> Seq<Seq<char>> {
    if !tiering_enabled(tiered) {
        no_lines()
    } else if tiered->0.s3 is Some {
        no_lines().push("[tiered_storage]"@).push("[tiered_storage.s3]"@)
    } else {
        no_lines().push("[tiered_storage]"@)
    }
}

/// One source header for each of `n` sources.
pub open spec fn source_headers(n: nat) -> Seq<Seq<char>>
    decreases n,
{
    if n == 0 {
        no_lines()
    } else {
        source_headers((n - 1) as nat).push("[[mirror.sources]]"@)
    }
}

/// The headers of the mirror section.
pub open spec fn mirror_headers(mirror: Option<MirrorConfigView>) -> Seq<Seq<char>> {
    if mirroring_enabled(mirror) {
        no_lines().push("[mirror]"@) + source_headers(mirror->0.sources.len())
    } else {
        no_lines()
    }
}

/// The section headers of a configuration text, in their order: the three
/// fixed ones, then those of tiered storage where it is switched on, then
/// that of mirroring and one for each source where it is switched on.
pub open spec fn expected_headers(spec: ShazamqClusterSpecView) -> Seq<Seq<char>> {
    no_lines().push("[broker]"@).push("[storage]"@).push("[metrics]"@) + tiered_headers(
        spec.tiered_storage,
    ) + mirror_headers(spec.mirror)
}

/// No text of a mirror source that the configuration shows holds a line break.
pub open spec fn source_newline_free(source: MirrorSourceView) -> bool {
    &&& newline_free(source.name)
    &&& newline_free(source.bootstrap_servers)
    &&& newline_free(source.security_protocol)
    &&& newline_free(source.consumer_group_id)
    &&& all_newline_free(source.topic_whitelist)
}

/// No text of the desired state that the configuration shows holds a line
/// break.
pub open spec fn shown_texts_newline_free(spec: ShazamqClusterSpecView) -> bool {
    &&& tiering_enabled(spec.tiered_storage) ==> {
        &&& newline_free(spec.tiered_storage->0.provider)
        &&& spec.tiered_storage->0.s3 is Some ==> {
            &&& newline_free(spec.tiered_storage->0.s3->0.bucket)
            &&& newline_free(spec.tiered_storage->0.s3->0.region)
            &&& newline_free(spec.tiered_storage->0.s3->0.prefix)
        }
    }
    &&& mirroring_enabled(spec.mirror) ==> forall|i: int|
        0 <= i < spec.mirror->0.sources.len() ==> source_newline_free(
            #[trigger] spec.mirror->0.sources[i],
        )
}

proof fn lemma_no_lines()
    ensures
        join_lines(no_lines()) == Seq::<char>::empty(),
        headers(no_lines()) == no_lines(),
        all_newline_free(no_lines()),
{
}

proof fn lemma_broker_lines()
    ensures
        join_lines(broker_lines()) == broker_section(),
        headers(broker_lines()) == no_lines().push("[broker]"@),
        all_newline_free(broker_lines()),
{
    reveal_strlit("[broker]\n");
    reveal_strlit("[broker]");
    reveal_strlit("host = \"0.0.0.0\"\n");
    reveal_strlit("host = \"0.0.0.0\"");
    reveal_strlit("port = 9092\n");
    reveal_strlit("port = 9092");
    reveal_strlit("data_dir = \"/data/shazamq\"\n\n");
    reveal_strlit("data_dir = \"/data/shazamq\"");
    lemma_no_lines();
    let a1 = no_lines().push("[broker]"@);
    let a2 = a1.push("host = \"0.0.0.0\""@);
    let a3 = a2.push("port = 9092"@);
    let a4 = a3.push("data_dir = \"/data/shazamq\""@);
    lemma_push_line(no_lines(), "[broker]"@);
    lemma_push_line(a1, "host = \"0.0.0.0\""@);
    lemma_push_line(a2, "port = 9092"@);
    lemma_push_line(a3, "data_dir = \"/data/shazamq\""@);
    lemma_push_line(a4, blank());
    assert(join_lines(broker_lines()) =~= broker_section());
}

proof fn lemma_metrics_lines()
    ensures
        join_lines(metrics_lines()) == metrics_section(),
        headers(metrics_lines()) == no_lines().push("[metrics]"@),
        all_newline_free(metrics_lines()),
{
    reveal_strlit("[metrics]\n");
    reveal_strlit("[metrics]");
    reveal_strlit("enabled = true\n");
    reveal_strlit("enabled = true");
    reveal_strlit("host = \"0.0.0.0\"\n");
    reveal_strlit("host = \"0.0.0.0\"");
    reveal_strlit("port = 9090\n\n");
    reveal_strlit("port = 9090");
    lemma_no_lines();
    let a1 = no_lines().push("[metrics]"@);
    let a2 = a1.push("enabled = true"@);
    let a3 = a2.push("host = \"0.0.0.0\""@);
    let a4 = a3.push("port = 9090"@);
    lemma_push_line(no_lines(), "[metrics]"@);
    lemma_push_line(a1, "enabled = true"@);
    lemma_push_line(a2, "host = \"0.0.0.0\""@);
    lemma_push_line(a3, "port = 9090"@);
    lemma_push_line(a4, blank());
    assert(join_lines(metrics_lines()) =~= metrics_section());
}

proof fn lemma_digits_newline_free(n: nat)
    ensures
        newline_free(decimal_digits(n)),
    decreases n,
{
    if n >= 10 {
        lemma_digits_newline_free(n / 10);
    }
}

proof fn lemma_number_lines(key: Seq<char>, value: Option<int>)
    requires
        key.len() > 0,
        key[0] != '[',
        newline_free(key),
    ensures
        join_lines(number_lines(key, value)) == number_line(key, value),
        headers(number_lines(key, value)) == no_lines(),
        all_newline_free(number_lines(key, value)),
{
    reveal_strlit("\n");
    reveal_strlit(" = ");
    lemma_no_lines();
    match value {
        Some(n) => {
            let l = key + " = "@ + decimal_text(n);
            lemma_push_line(no_lines(), l);
            assert(l[0] == key[0]);
            if n < 0 {
                lemma_digits_newline_free((-n) as nat);
            } else {
                lemma_digits_newline_free(n as nat);
            }
            assert(newline_free(l));
            assert(join_lines(number_lines(key, value)) =~= number_line(key, value));
        },
        None => {},
    }
}

proof fn lemma_storage_lines(storage: Option<StorageConfigView>)
    ensures
        join_lines(storage_lines(storage)) == storage_section(storage),
        headers(storage_lines(storage)) == no_lines().push("[storage]"@),
        all_newline_free(storage_lines(storage)),
{
    reveal_strlit("[storage]\n");
    reveal_strlit("[storage]");
    reveal_strlit("segment_bytes");
    reveal_strlit("retention_hours");
    reveal_strlit("\n");
    lemma_no_lines();
    let head = no_lines().push("[storage]"@);
    let seg = number_lines("segment_bytes"@, segment_bytes_of(storage));
    let ret = number_lines("retention_hours"@, retention_hours_of(storage));
    let tail = no_lines().push(blank());
    lemma_push_line(no_lines(), "[storage]"@);
    lemma_push_line(no_lines(), blank());
    lemma_number_lines("segment_bytes"@, segment_bytes_of(storage));
    lemma_number_lines("retention_hours"@, retention_hours_of(storage));
    lemma_add_lines(head, seg);
    lemma_add_lines(head + seg, ret);
    lemma_add_lines(head + seg + ret, tail);
    assert(join_lines(storage_lines(storage)) =~= storage_section(storage));
    assert(headers(storage_lines(storage)) =~= no_lines().push("[storage]"@));
}

proof fn lemma_quoted_content(key: Seq<char>, value: Seq<char>)
    requires
        key.len() > 0,
        key[0] != '[',
        newline_free(key),
    ensures
        quoted_content(key, value) + newline() == quoted_line(key, value),
        !is_header(quoted_content(key, value)),
        newline_free(value) ==> newline_free(quoted_content(key, value)),
{
    reveal_strlit(" = \"");
    reveal_strlit("\"");
    reveal_strlit("\"\n");
    let l = quoted_content(key, value);
    assert(l[0] == key[0]);
    assert(l + newline() =~= quoted_line(key, value));
}

proof fn lemma_object_store_lines(s3: Option<S3ConfigView>)
    ensures
        join_lines(object_store_lines(s3)) == object_store_block(s3),
        headers(object_store_lines(s3)) == if s3 is Some {
            no_lines().push("[tiered_storage.s3]"@)
        } else {
            no_lines()
        },
        (s3 is Some ==> newline_free(s3->0.bucket) && newline_free(s3->0.region) && newline_free(
            s3->0.prefix,
        )) ==> all_newline_free(object_store_lines(s3)),
{
    lemma_no_lines();
    match s3 {
        Some(s) => {
            reveal_strlit("\n[tiered_storage.s3]\n");
            reveal_strlit("[tiered_storage.s3]");
            reveal_strlit("bucket");
            reveal_strlit("region");
            reveal_strlit("prefix");
            let bucket = quoted_content("bucket"@, s.bucket);
            let region = quoted_content("region"@, s.region);
            let prefix = quoted_content("prefix"@, s.prefix);
            lemma_quoted_content("bucket"@, s.bucket);
            lemma_quoted_content("region"@, s.region);
            lemma_quoted_content("prefix"@, s.prefix);
            let a1 = no_lines().push(blank());
            let a2 = a1.push("[tiered_storage.s3]"@);
            let a3 = a2.push(bucket);
            let a4 = a3.push(region);
            lemma_push_line(no_lines(), blank());
            lemma_push_line(a1, "[tiered_storage.s3]"@);
            lemma_push_line(a2, bucket);
            lemma_push_line(a3, region);
            lemma_push_line(a4, prefix);
            assert(join_lines(object_store_lines(s3)) =~= "\n[tiered_storage.s3]\n"@ + (bucket
                + newline()) + (region + newline()) + (prefix + newline()));
        },
        None => {},
    }
}

proof fn lemma_tiered_lines(tiered: Option<TieredStorageConfigView>)
    ensures
        join_lines(tiered_lines(tiered)) == tiered_section(tiered),
        headers(tiered_lines(tiered)) == tiered_headers(tiered),
        (tiering_enabled(tiered) ==> newline_free(tiered->0.provider) && (tiered->0.s3 is Some
            ==> newline_free(tiered->0.s3->0.bucket) && newline_free(tiered->0.s3->0.region)
            && newline_free(tiered->0.s3->0.prefix))) ==> all_newline_free(tiered_lines(tiered)),
{
    lemma_no_lines();
    if tiering_enabled(tiered) {
        reveal_strlit("[tiered_storage]\n");
        reveal_strlit("[tiered_storage]");
        reveal_strlit("enabled = true\n");
        reveal_strlit("enabled = true");
        reveal_strlit("provider");
        reveal_strlit("\n");
        let provider = quoted_content("provider"@, tiered->0.provider);
        lemma_quoted_content("provider"@, tiered->0.provider);
        let a1 = no_lines().push("[tiered_storage]"@);
        let a2 = a1.push("enabled = true"@);
        let head = a2.push(provider);
        let store = object_store_lines(tiered->0.s3);
        let tail = no_lines().push(blank());
        lemma_push_line(no_lines(), "[tiered_storage]"@);
        lemma_push_line(a1, "enabled = true"@);
        lemma_push_line(a2, provider);
        lemma_push_line(no_lines(), blank());
        lemma_object_store_lines(tiered->0.s3);
        lemma_add_lines(head, store);
        lemma_add_lines(head + store, tail);
        assert(join_lines(head) =~= "[tiered_storage]\n"@ + "enabled = true\n"@ + (provider
            + newline()));
        assert(join_lines(tiered_lines(tiered)) =~= tiered_section(tiered));
        assert(headers(tiered_lines(tiered)) =~= tiered_headers(tiered));
    }
}

proof fn lemma_topic_list_newline_free(topics: Seq<Seq<char>>)
    requires
        all_newline_free(topics),
    ensures
        newline_free(topic_list(topics)),
    decreases topics.len(),
{
    reveal_strlit("\"");
    reveal_strlit(", ");
    if topics.len() == 0 {
    } else if topics.len() == 1 {
        assert(newline_free(topics[0]));
    } else {
        assert(all_newline_free(topics.drop_last())) by {
            assert forall|i: int| 0 <= i < topics.drop_last().len() implies newline_free(
                #[trigger] topics.drop_last()[i],
            ) by {
                assert(topics.drop_last()[i] == topics[i]);
            }
        }
        lemma_topic_list_newline_free(topics.drop_last());
        assert(newline_free(topics.last())) by {
            assert(topics.last() == topics[topics.len() - 1]);
        }
    }
}

/// A key that is written before a value: not empty, not opening with a
/// square bracket, and without a line break.
spec fn plain_key(key: Seq<char>) -> bool {
    key.len() > 0 && key[0] != '[' && newline_free(key)
}

proof fn lemma_source_literals()
    ensures
        "[[mirror.sources]]\n"@ == "[[mirror.sources]]"@ + newline(),
        is_header("[[mirror.sources]]"@),
        newline_free("[[mirror.sources]]"@),
        "]\n\n"@ == "]"@ + newline() + newline(),
        plain_key("topic_whitelist = ["@),
        newline_free("]"@),
        plain_key("name"@),
        plain_key("bootstrap_servers"@),
        plain_key("security_protocol"@),
        plain_key("consumer_group_id"@),
{
    reveal_strlit("[[mirror.sources]]\n");
    reveal_strlit("[[mirror.sources]]");
    reveal_strlit("name");
    reveal_strlit("bootstrap_servers");
    reveal_strlit("security_protocol");
    reveal_strlit("consumer_group_id");
    reveal_strlit("topic_whitelist = [");
    reveal_strlit("]");
    reveal_strlit("]\n\n");
    assert("[[mirror.sources]]\n"@ =~= "[[mirror.sources]]"@ + newline());
    assert("]\n\n"@ =~= "]"@ + newline() + newline());
}

proof fn lemma_topic_line(topics: Seq<Seq<char>>)
    ensures
        !is_header("topic_whitelist = ["@ + topic_list(topics) + "]"@),
        ("topic_whitelist = ["@ + topic_list(topics) + "]"@) + newline() + newline()
            == "topic_whitelist = ["@ + topic_list(topics) + "]\n\n"@,
        all_newline_free(topics) ==> newline_free(
            "topic_whitelist = ["@ + topic_list(topics) + "]"@,
        ),
{
    lemma_source_literals();
    let line = "topic_whitelist = ["@ + topic_list(topics) + "]"@;
    assert(line[0] == "topic_whitelist = ["@[0]);
    assert(line + newline() + newline() =~= "topic_whitelist = ["@ + topic_list(topics) + (
    "]"@ + newline() + newline()));
    if all_newline_free(topics) {
        lemma_topic_list_newline_free(topics);
    }
}

proof fn lemma_source_lines(source: MirrorSourceView)
    ensures
        join_lines(source_lines(source)) == source_block(source),
        headers(source_lines(source)) == no_lines().push("[[mirror.sources]]"@),
        source_newline_free(source) ==> all_newline_free(source_lines(source)),
{
    lemma_source_literals();
    lemma_no_lines();
    let header = "[[mirror.sources]]"@;
    let name = quoted_content("name"@, source.name);
    let servers = quoted_content("bootstrap_servers"@, source.bootstrap_servers);
    let protocol = quoted_content("security_protocol"@, source.security_protocol);
    let group = quoted_content("consumer_group_id"@, source.consumer_group_id);
    let topics = "topic_whitelist = ["@ + topic_list(source.topic_whitelist) + "]"@;
    lemma_quoted_content("name"@, source.name);
    lemma_quoted_content("bootstrap_servers"@, source.bootstrap_servers);
    lemma_quoted_content("security_protocol"@, source.security_protocol);
    lemma_quoted_content("consumer_group_id"@, source.consumer_group_id);
    lemma_topic_line(source.topic_whitelist);
    let a1 = no_lines().push(header);
    let a2 = a1.push(name);
    let a3 = a2.push(servers);
    let a4 = a3.push(protocol);
    let a5 = a4.push(group);
    let a6 = a5.push(topics);
    lemma_push_line(no_lines(), header);
    lemma_push_line(a1, name);
    lemma_push_line(a2, servers);
    lemma_push_line(a3, protocol);
    lemma_push_line(a4, group);
    lemma_push_line(a5, topics);
    lemma_push_line(a6, blank());
    assert(join_lines(a1) =~= "[[mirror.sources]]\n"@);
    assert(join_lines(a5) =~= "[[mirror.sources]]\n"@ + quoted_line("name"@, source.name)
        + quoted_line("bootstrap_servers"@, source.bootstrap_servers) + quoted_line(
        "security_protocol"@,
        source.security_protocol,
    ) + quoted_line("consumer_group_id"@, source.consumer_group_id));
    assert(join_lines(a6.push(blank())) =~= join_lines(a5) + (topics + newline() + newline()));
    assert(join_lines(source_lines(source)) =~= source_block(source));
}

proof fn lemma_all_source_lines(sources: Seq<MirrorSourceView>)
    ensures
        join_lines(all_source_lines(sources)) == source_blocks(sources),
        headers(all_source_lines(sources)) == source_headers(sources.len()),
        (forall|i: int| 0 <= i < sources.len() ==> source_newline_free(#[trigger] sources[i]))
            ==> all_newline_free(all_source_lines(sources)),
    decreases sources.len(),
{
    lemma_no_lines();
    if sources.len() > 0 {
        lemma_all_source_lines(sources.drop_last());
        lemma_source_lines(sources.last());
        lemma_add_lines(all_source_lines(sources.drop_last()), source_lines(sources.last()));
        assert(headers(all_source_lines(sources)) =~= source_headers(sources.len()));
        if forall|i: int| 0 <= i < sources.len() ==> source_newline_free(#[trigger] sources[i]) {
            assert forall|i: int| 0 <= i < sources.drop_last().len() implies source_newline_free(
                #[trigger] sources.drop_last()[i],
            ) by {
                assert(sources.drop_last()[i] == sources[i]);
            }
            assert(source_newline_free(sources[sources.len() - 1]));
        }
    }
}

proof fn lemma_mirror_lines(mirror: Option<MirrorConfigView>)
    ensures
        join_lines(mirror_lines(mirror)) == mirror_section(mirror),
        headers(mirror_lines(mirror)) == mirror_headers(mirror),
        (mirroring_enabled(mirror) ==> forall|i: int|
            0 <= i < mirror->0.sources.len() ==> source_newline_free(
                #[trigger] mirror->0.sources[i],
            )) ==> all_newline_free(mirror_lines(mirror)),
{
    lemma_no_lines();
    if mirroring_enabled(mirror) {
        reveal_strlit("[mirror]\n");
        reveal_strlit("[mirror]");
        reveal_strlit("enabled = true\n\n");
        reveal_strlit("enabled = true");
        let a1 = no_lines().push("[mirror]"@);
        let a2 = a1.push("enabled = true"@);
        let head = a2.push(blank());
        lemma_push_line(no_lines(), "[mirror]"@);
        lemma_push_line(a1, "enabled = true"@);
        lemma_push_line(a2, blank());
        lemma_all_source_lines(mirror->0.sources);
        lemma_add_lines(head, all_source_lines(mirror->0.sources));
        assert(join_lines(head) =~= "[mirror]\n"@ + "enabled = true\n\n"@);
        assert(join_lines(mirror_lines(mirror)) =~= mirror_section(mirror));
        assert(headers(mirror_lines(mirror)) =~= mirror_headers(mirror));
    }
}

/// The configuration text is made of its lines, each followed by a line
/// break, and the section headers among these lines are the expected ones in
/// their order.
pub proof fn lemma_config_lines(spec: ShazamqClusterSpecView)
    ensures
        join_lines(config_lines(spec)) == config_text(spec),
        headers(config_lines(spec)) == expected_headers(spec),
        shown_texts_newline_free(spec) ==> all_newline_free(config_lines(spec)),
{
    let b = broker_lines();
    let s = storage_lines(spec.storage);
    let m = metrics_lines();
    let t = tiered_lines(spec.tiered_storage);
    let r = mirror_lines(spec.mirror);
    lemma_broker_lines();
    lemma_storage_lines(spec.storage);
    lemma_metrics_lines();
    lemma_tiered_lines(spec.tiered_storage);
    lemma_mirror_lines(spec.mirror);
    lemma_add_lines(b, s);
    lemma_add_lines(b + s, m);
    lemma_add_lines(b + s + m, t);
    lemma_add_lines(b + s + m + t, r);
    assert(headers(config_lines(spec)) =~= expected_headers(spec));
}

/// Where no text that the configuration shows holds a line break, the lines
/// of the configuration text that open a section are the expected headers,
/// in this order: broker, storage, metrics, then tiered storage and its
/// object store where they are written, then mirroring and one header for
/// each of its sources where it is switched on.
pub proof fn lemma_section_headers_in_order(spec: ShazamqClusterSpecView)
    requires
        shown_texts_newline_free(spec),
    ensures
        lines_of(config_text(spec)) == config_lines(spec),
        headers(lines_of(config_text(spec))) == expected_headers(spec),
{
    lemma_config_lines(spec);
    lemma_lines_of_join(config_lines(spec));
}

proof fn lemma_source_headers_are_source_headers(n: nat, j: int)
    requires
        0 <= j < source_headers(n).len(),
    ensures
        source_headers(n)[j] == "[[mirror.sources]]"@,
    decreases n,
{
    if n > 0 {
        if j < source_headers((n - 1) as nat).len() {
            lemma_source_headers_are_source_headers((n - 1) as nat, j);
        }
    }
}

/// Where tiered storage is absent or switched off, and no text that the
/// configuration shows holds a line break, no line of the configuration text
/// begins with the header of tiered storage or of its object store.
pub proof fn lemma_no_tiered_storage_lines(spec: ShazamqClusterSpecView)
    requires
        shown_texts_newline_free(spec),
        !tiering_enabled(spec.tiered_storage),
    ensures
        none_starts_with(lines_of(config_text(spec)), "[tiered_storage"@),
{
    lemma_section_headers_in_order(spec);
    reveal_strlit("[tiered_storage");
    reveal_strlit("[broker]");
    reveal_strlit("[storage]");
    reveal_strlit("[metrics]");
    reveal_strlit("[mirror]");
    reveal_strlit("[[mirror.sources]]");
    let ls = config_lines(spec);
    let prefix = "[tiered_storage"@;
    let hs = expected_headers(spec);
    let fixed = no_lines().push("[broker]"@).push("[storage]"@).push("[metrics]"@);
    assert forall|i: int| 0 <= i < ls.len() implies !starts_with(#[trigger] ls[i], prefix) by {
        if starts_with(ls[i], prefix) {
            let l = ls[i];
            assert(l.take(prefix.len() as int)[0] == l[0]);
            assert(l.take(prefix.len() as int)[1] == l[1]);
            assert(l[0] == '[' && l[1] == 't');
            lemma_header_is_listed(ls, i);
            let j = choose|j: int| 0 <= j < hs.len() && hs[j] == l;
            assert(tiered_headers(spec.tiered_storage) =~= no_lines());
            assert(hs =~= fixed + mirror_headers(spec.mirror));
            if j >= 3 {
                let k = j - 3;
                assert(hs[j] == mirror_headers(spec.mirror)[k]);
                if k >= 1 {
                    lemma_source_headers_are_source_headers(
                        spec.mirror->0.sources.len(),
                        k - 1,
                    );
                }
            }
            assert(false);
        }
    }
}

/// The seven section headers are seven different lines, so each of the
/// headers that can stand only once in the expected order does stand only
/// once.
pub proof fn lemma_header_texts_differ()
    ensures
        "[broker]"@ != "[storage]"@,
        "[broker]"@ != "[metrics]"@,
        "[broker]"@ != "[tiered_storage]"@,
        "[broker]"@ != "[tiered_storage.s3]"@,
        "[broker]"@ != "[mirror]"@,
        "[broker]"@ != "[[mirror.sources]]"@,
        "[storage]"@ != "[metrics]"@,
        "[storage]"@ != "[tiered_storage]"@,
        "[storage]"@ != "[tiered_storage.s3]"@,
        "[storage]"@ != "[mirror]"@,
        "[storage]"@ != "[[mirror.sources]]"@,
        "[metrics]"@ != "[tiered_storage]"@,
        "[metrics]"@ != "[tiered_storage.s3]"@,
        "[metrics]"@ != "[mirror]"@,
        "[metrics]"@ != "[[mirror.sources]]"@,
        "[tiered_storage]"@ != "[tiered_storage.s3]"@,
        "[tiered_storage]"@ != "[mirror]"@,
        "[tiered_storage]"@ != "[[mirror.sources]]"@,
        "[tiered_storage.s3]"@ != "[mirror]"@,
        "[tiered_storage.s3]"@ != "[[mirror.sources]]"@,
        "[mirror]"@ != "[[mirror.sources]]"@,
{
    reveal_strlit("[broker]");
    reveal_strlit("[storage]");
    reveal_strlit("[metrics]");
    reveal_strlit("[tiered_storage]");
    reveal_strlit("[tiered_storage.s3]");
    reveal_strlit("[mirror]");
    reveal_strlit("[[mirror.sources]]");
    assert("[broker]"@[1] == 'b');
    assert("[storage]"@[1] == 's');
    assert("[metrics]"@[1] == 'm');
    assert("[mirror]"@[1] == 'm');
    assert("[metrics]"@.len() == 9);
    assert("[mirror]"@.len() == 8);
    assert("[tiered_storage]"@.len() == 16);
    assert("[tiered_storage.s3]"@.len() == 19);
    assert("[[mirror.sources]]"@.len() == 18);
}

} // verus!
