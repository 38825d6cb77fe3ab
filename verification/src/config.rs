//! The configuration text that a broker reads: sections of `key = value`
//! lines in a fixed order.

use crate::crd::{
    MirrorConfig, MirrorConfigView, MirrorSource, MirrorSourceView, S3ConfigView,
    ShazamqClusterSpec, ShazamqClusterSpecView, StorageConfig, StorageConfigView,
    TieredStorageConfig, TieredStorageConfigView,
};
use crate::config_lines::{
    config_lines, expected_headers, lemma_no_tiered_storage_lines, lemma_section_headers_in_order,
    shown_texts_newline_free,
};
use crate::lines::{headers, lines_of, none_starts_with};
use crate::text::{append_decimal, decimal_text};
use vstd::prelude::*;
use vstd::string::*;

verus! {

/// A line that gives `key` the text `value`, in double quotes.
pub open spec fn quoted_line(key: Seq<char>, value: Seq<char>) -> Seq<char> {
    key + " = \""@ + value + "\"\n"@
}

/// A line that gives `key` a number, or nothing where there is no number.
pub open spec fn number_line(key: Seq<char>, value: Option<int>) -> Seq<char> {
    match value {
        Some(n) => key + " = "@ + decimal_text(n) + "\n"@,
        None => Seq::empty(),
    }
}

/// The network and identity section: always the same.
pub open spec fn broker_section() -> Seq<char> {
    "[broker]\n"@ + "host = \"0.0.0.0\"\n"@ + "port = 9092\n"@ + "data_dir = \"/data/shazamq\"\n\n"@
}

/// The segment size of the storage settings, if they are there and give one.
pub open spec fn segment_bytes_of(storage: Option<StorageConfigView>) -> Option<int> {
    match storage {
        Some(s) => match s.segment_bytes {
            Some(n) => Some(n as int),
            None => None,
        },
        None => None,
    }
}

/// The retention of the storage settings in hours, if they are there and give one.
pub open spec fn retention_hours_of(storage: Option<StorageConfigView>) -> Option<int> {
    match storage {
        Some(s) => match s.retention_hours {
            Some(n) => Some(n as int),
            None => None,
        },
        None => None,
    }
}

/// The storage section: its header always, segment size and retention only
/// where they are set.
pub open spec fn storage_section(storage: Option<StorageConfigView>) -> Seq<char> {
    "[storage]\n"@ + number_line("segment_bytes"@, segment_bytes_of(storage)) + number_line(
        "retention_hours"@,
        retention_hours_of(storage),
    ) + "\n"@
}

/// The metrics section: always the same.
pub open spec fn metrics_section() -> Seq<char> {
    "[metrics]\n"@ + "enabled = true\n"@ + "host = \"0.0.0.0\"\n"@ + "port = 9090\n\n"@
}

/// The block of the object store, or nothing where none is given.
pub open spec fn object_store_block(s3: Option<S3ConfigView>) -> Seq<char> {
    match s3 {
        Some(s) => "\n[tiered_storage.s3]\n"@ + quoted_line("bucket"@, s.bucket) + quoted_line(
            "region"@,
            s.region,
        ) + quoted_line("prefix"@, s.prefix),
        None => Seq::empty(),
    }
}

/// Tiered storage is asked for and switched on.
pub open spec fn tiering_enabled(tiered: Option<TieredStorageConfigView>) -> bool {
    tiered is Some && tiered->0.enabled
}

/// The tiered-storage section, or nothing unless tiered storage is switched on.
pub open spec fn tiered_section(tiered: Option<TieredStorageConfigView>) -> Seq<char> {
    if tiering_enabled(tiered) {
        "[tiered_storage]\n"@ + "enabled = true\n"@ + quoted_line("provider"@, tiered->0.provider)
            + object_store_block(tiered->0.s3) + "\n"@
    } else {
        Seq::empty()
    }
}

/// A topic name in double quotes.
pub open spec fn quoted(topic: Seq<char>) -> Seq<char> {
    "\""@ + topic + "\""@
}

/// The topics in double quotes, in their order, with a comma and a blank
/// between two of them.
pub open spec fn topic_list(topics: Seq<Seq<char>>) -> Seq<char>
    decreases topics.len(),
{
    if topics.len() == 0 {
        Seq::empty()
    } else if topics.len() == 1 {
        quoted(topics[0])
    } else {
        topic_list(topics.drop_last()) + ", "@ + quoted(topics.last())
    }
}

/// The block of one mirror source.
pub open spec fn source_block(source: MirrorSourceView) -> Seq<char> {
    "[[mirror.sources]]\n"@ + quoted_line("name"@, source.name) + quoted_line(
        "bootstrap_servers"@,
        source.bootstrap_servers,
    ) + quoted_line("security_protocol"@, source.security_protocol) + quoted_line(
        "consumer_group_id"@,
        source.consumer_group_id,
    ) + "topic_whitelist = ["@ + topic_list(source.topic_whitelist) + "]\n\n"@
}

/// One block for each mirror source, in the order of the sources.
pub open spec fn source_blocks(sources: Seq<MirrorSourceView>) -> Seq<char>
    decreases sources.len(),
{
    if sources.len() == 0 {
        Seq::empty()
    } else {
        source_blocks(sources.drop_last()) + source_block(sources.last())
    }
}

/// Mirroring is asked for and switched on.
pub open spec fn mirroring_enabled(mirror: Option<MirrorConfigView>) -> bool {
    mirror is Some && mirror->0.enabled
}

/// The mirror section, or nothing unless mirroring is switched on.
pub open spec fn mirror_section(mirror: Option<MirrorConfigView>) -> Seq<char> {
    if mirroring_enabled(mirror) {
        "[mirror]\n"@ + "enabled = true\n\n"@ + source_blocks(mirror->0.sources)
    } else {
        Seq::empty()
    }
}

/// The whole configuration text of a desired state: the five sections in
/// their fixed order.
pub open spec fn config_text(spec: ShazamqClusterSpecView) -> Seq<char> {
    broker_section() + storage_section(spec.storage) + metrics_section() + tiered_section(
        spec.tiered_storage,
    ) + mirror_section(spec.mirror)
}

/// Two desired states that hold the same values have the same configuration
/// text, character for character.
pub proof fn lemma_config_text_deterministic(a: ShazamqClusterSpec, b: ShazamqClusterSpec)
    requires
        a.deep_view() == b.deep_view(),
    ensures
        config_text(a.deep_view()) == config_text(b.deep_view()),
{
}

/// The text depends on the storage, tiered-storage and mirror settings alone,
/// and each of them fills its own place between the fixed sections.
pub proof fn lemma_config_text_reads_three_fields(a: ShazamqClusterSpecView, b: ShazamqClusterSpecView)
    requires
        a.storage == b.storage,
        a.tiered_storage == b.tiered_storage,
        a.mirror == b.mirror,
    ensures
        config_text(a) == config_text(b),
{
}

/// A desired state without tiered storage, or with tiered storage switched
/// off, has no tiered-storage section; one without mirroring, or with
/// mirroring switched off, has no mirror section.
pub proof fn lemma_sections_left_out(spec: ShazamqClusterSpecView)
    ensures
        !tiering_enabled(spec.tiered_storage) ==> tiered_section(spec.tiered_storage)
            == Seq::<char>::empty(),
        !mirroring_enabled(spec.mirror) ==> mirror_section(spec.mirror) == Seq::<char>::empty(),
        !tiering_enabled(spec.tiered_storage) && !mirroring_enabled(spec.mirror) ==> config_text(
            spec,
        ) == broker_section() + storage_section(spec.storage) + metrics_section(),
{
    if !tiering_enabled(spec.tiered_storage) && !mirroring_enabled(spec.mirror) {
        assert(config_text(spec) =~= broker_section() + storage_section(spec.storage)
            + metrics_section());
    }
}

fn append_quoted_line(out: &mut String, key: &str, value: &str)
    ensures
        final(out)@ == old(out)@ + quoted_line(key@, value@),
{
    out.append(key);
    out.append(" = \"");
    out.append(value);
    out.append("\"\n");
    assert(out@ =~= old(out)@ + quoted_line(key@, value@));
}

fn append_number_line(out: &mut String, key: &str, value: Option<i64>)
    ensures
        final(out)@ == old(out)@ + number_line(
            key@,
            match value {
                Some(n) => Some(n as int),
                None => None,
            },
        ),
{
    match value {
        Some(n) => {
            out.append(key);
            out.append(" = ");
            append_decimal(out, n);
            out.append("\n");
            assert(out@ =~= old(out)@ + number_line(key@, Some(n as int)));
        },
        None => {
            assert(out@ =~= old(out)@ + number_line(key@, None));
        },
    }
}

fn append_storage_section(out: &mut String, storage: &Option<StorageConfig>)
    ensures
        final(out)@ == old(out)@ + storage_section(storage.deep_view()),
{
    out.append("[storage]\n");
    let mut segment_bytes: Option<i64> = None;
    let mut retention_hours: Option<i64> = None;
    match storage {
        Some(s) => {
            segment_bytes = s.segment_bytes;
            retention_hours =
            match s.retention_hours {
                Some(h) => Some(h as i64),
                None => None,
            };
        },
        None => {},
    }
    append_number_line(out, "segment_bytes", segment_bytes);
    append_number_line(out, "retention_hours", retention_hours);
    out.append("\n");
    assert(out@ =~= old(out)@ + storage_section(storage.deep_view()));
}

fn append_tiered_section(out: &mut String, tiered: &Option<TieredStorageConfig>)
    ensures
        final(out)@ == old(out)@ + tiered_section(tiered.deep_view()),
{
    match tiered {
        Some(t) => {
            if t.enabled {
                out.append("[tiered_storage]\n");
                out.append("enabled = true\n");
                append_quoted_line(out, "provider", t.provider.as_str());
                match &t.s3 {
                    Some(s) => {
                        out.append("\n[tiered_storage.s3]\n");
                        append_quoted_line(out, "bucket", s.bucket.as_str());
                        append_quoted_line(out, "region", s.region.as_str());
                        append_quoted_line(out, "prefix", s.prefix.as_str());
                    },
                    None => {},
                }
                out.append("\n");
            }
        },
        None => {},
    }
    assert(out@ =~= old(out)@ + tiered_section(tiered.deep_view()));
}

fn append_topic_list(out: &mut String, topics: &Vec<String>)
    ensures
        final(out)@ == old(out)@ + topic_list(topics.deep_view()),
{
    let ghost all = topics.deep_view();
    let mut i: usize = 0;
    assert(all.take(0) =~= Seq::<Seq<char>>::empty());
    assert(out@ =~= old(out)@ + topic_list(all.take(0)));
    while i < topics.len()
        invariant
            i <= topics.len(),
            all == topics.deep_view(),
            out@ == old(out)@ + topic_list(all.take(i as int)),
        decreases topics.len() - i,
    {
        if i > 0 {
            out.append(", ");
        }
        out.append("\"");
        out.append(topics[i].as_str());
        out.append("\"");
        proof {
            let next = all.take(i + 1);
            assert(next.drop_last() =~= all.take(i as int));
            assert(next.last() == topics@[i as int]@);
            assert(out@ =~= old(out)@ + topic_list(next));
        }
        i += 1;
    }
    assert(all.take(topics.len() as int) =~= all);
}

fn append_source_block(out: &mut String, source: &MirrorSource)
    ensures
        final(out)@ == old(out)@ + source_block(source.deep_view()),
{
    out.append("[[mirror.sources]]\n");
    append_quoted_line(out, "name", source.name.as_str());
    append_quoted_line(out, "bootstrap_servers", source.bootstrap_servers.as_str());
    append_quoted_line(out, "security_protocol", source.security_protocol.as_str());
    append_quoted_line(out, "consumer_group_id", source.consumer_group_id.as_str());
    out.append("topic_whitelist = [");
    append_topic_list(out, &source.topic_whitelist);
    out.append("]\n\n");
    assert(out@ =~= old(out)@ + source_block(source.deep_view()));
}

fn append_mirror_section(out: &mut String, mirror: &Option<MirrorConfig>)
    ensures
        final(out)@ == old(out)@ + mirror_section(mirror.deep_view()),
{
    match mirror {
        Some(m) => {
            if m.enabled {
                out.append("[mirror]\n");
                out.append("enabled = true\n\n");
                let ghost all = m.sources.deep_view();
                let ghost start = out@;
                let mut i: usize = 0;
                assert(all.take(0) =~= Seq::<MirrorSourceView>::empty());
                assert(out@ =~= start + source_blocks(all.take(0)));
                while i < m.sources.len()
                    invariant
                        i <= m.sources.len(),
                        all == m.sources.deep_view(),
                        out@ == start + source_blocks(all.take(i as int)),
                    decreases m.sources.len() - i,
                {
                    append_source_block(out, &m.sources[i]);
                    proof {
                        let next = all.take(i + 1);
                        assert(next.drop_last() =~= all.take(i as int));
                        assert(next.last() == m.sources@[i as int].deep_view());
                        assert(out@ =~= start + source_blocks(next));
                    }
                    i += 1;
                }
                assert(all.take(m.sources.len() as int) =~= all);
                assert(out@ =~= old(out)@ + mirror_section(mirror.deep_view()));
            } else {
                assert(out@ =~= old(out)@ + mirror_section(mirror.deep_view()));
            }
        },
        None => {
            assert(out@ =~= old(out)@ + mirror_section(mirror.deep_view()));
        },
    }
}

/// Renders the configuration text of a desired state. Where none of the
/// texts that it shows holds a line break, the section headers stand in the
/// text in their fixed order, and without tiered storage no line begins with
/// the tiered-storage header.
pub fn generate_config_toml(spec: &ShazamqClusterSpec) -> (r: String)
    ensures
        r@ == config_text(spec.deep_view()),
        shown_texts_newline_free(spec.deep_view()) ==> lines_of(r@) == config_lines(
            spec.deep_view(),
        ) && headers(lines_of(r@)) == expected_headers(spec.deep_view()),
        shown_texts_newline_free(spec.deep_view()) && !tiering_enabled(
            spec.deep_view().tiered_storage,
        ) ==> none_starts_with(lines_of(r@), "[tiered_storage"@),
{
    proof {
        if shown_texts_newline_free(spec.deep_view()) {
            lemma_section_headers_in_order(spec.deep_view());
            if !tiering_enabled(spec.deep_view().tiered_storage) {
                lemma_no_tiered_storage_lines(spec.deep_view());
            }
        }
    }
    let mut config = String::new();
    config.append("[broker]\n");
    config.append("host = \"0.0.0.0\"\n");
    config.append("port = 9092\n");
    config.append("data_dir = \"/data/shazamq\"\n\n");
    assert(config@ =~= broker_section());
    append_storage_section(&mut config, &spec.storage);
    config.append("[metrics]\n");
    config.append("enabled = true\n");
    config.append("host = \"0.0.0.0\"\n");
    config.append("port = 9090\n\n");
    assert(config@ =~= broker_section() + storage_section(spec.storage.deep_view())
        + metrics_section());
    append_tiered_section(&mut config, &spec.tiered_storage);
    append_mirror_section(&mut config, &spec.mirror);
    config
}

} // verus!
