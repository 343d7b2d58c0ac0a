use vstd::prelude::*;
use crate::container::{DockerConfigLayer, DockerImageConfig, DockerRootfs};
use crate::json::{get_member, get_text, member, text_of, JsonValue, ProtocolError};
use crate::layers::{descriptor_views, string_views, LayerDescriptor};
use crate::manifest::{ImageContent, IndexEntry};

verus! {

/// Media type and digest of a manifest layer entry.
pub open spec fn layer_entry(v: JsonValue) -> Option<(Seq<char>, Seq<char>)> {
    match (text_of(member(v, "mediaType"@)), text_of(member(v, "digest"@))) {
        (Some(m), Some(d)) => Some((m, d)),
        _ => None,
    }
}

/// Architecture, os and digest of a platform index entry.
pub open spec fn index_entry(v: JsonValue) -> Option<(Seq<char>, Seq<char>, Seq<char>)> {
    match member(v, "platform"@) {
        Some(p) => match (
            text_of(member(p, "architecture"@)),
            text_of(member(p, "os"@)),
            text_of(member(v, "digest"@)),
        ) {
            (Some(a), Some(o), Some(d)) => Some((a, o, d)),
            _ => None,
        },
        None => None,
    }
}

/// The items of the array held by field `key`.
pub open spec fn array_member(v: JsonValue, key: Seq<char>) -> Option<Seq<JsonValue>> {
    match member(v, key) {
        Some(JsonValue::Array(items)) => Some(items@),
        _ => None,
    }
}

/// A list of strings held by an optional field: absent or null is empty.
pub open spec fn text_list(v: Option<JsonValue>) -> Option<Seq<Seq<char>>> {
    match v {
        None => Some(Seq::empty()),
        Some(JsonValue::Null) => Some(Seq::empty()),
        Some(JsonValue::Array(items)) => if forall|i: int|
            0 <= i < items@.len() ==> items@[i] is Text {
            Some(items@.map_values(|x: JsonValue| x->Text_0@))
        } else {
            None
        },
        _ => None,
    }
}

/// A string held by an optional field: absent is empty.
pub open spec fn text_or_empty(v: Option<JsonValue>) -> Seq<char> {
    match text_of(v) {
        Some(s) => s,
        None => Seq::empty(),
    }
}

pub open spec fn entry_views(es: Seq<IndexEntry>) -> Seq<(Seq<char>, Seq<char>, Seq<char>)> {
    es.map_values(|e: IndexEntry| (e.architecture@, e.os@, e.digest@))
}

/// Whether a manifest holds a list of layers, each with a media type and a digest.
pub open spec fn manifest_well_formed(manifest: JsonValue) -> bool {
    &&& array_member(manifest, "layers"@) is Some
    &&& forall|i: int|
        0 <= i < array_member(manifest, "layers"@)->Some_0.len() ==> layer_entry(
            array_member(manifest, "layers"@)->Some_0[i],
        ) is Some
}

/// Media type and digest of each layer of a well-formed manifest.
pub open spec fn manifest_layers(manifest: JsonValue) -> Seq<(Seq<char>, Seq<char>)> {
    array_member(manifest, "layers"@)->Some_0.map_values(|v: JsonValue| layer_entry(v)->Some_0)
}

/// The layer list of a manifest document.
pub fn parse_manifest_layers(manifest: &JsonValue) -> (r: Result<Vec<LayerDescriptor>, ProtocolError>)
    ensures
        r is Ok <==> manifest_well_formed(*manifest),
        r is Ok ==> descriptor_views(r->Ok_0@) == manifest_layers(*manifest),
        r is Err ==> r == Err::<Vec<LayerDescriptor>, ProtocolError>(ProtocolError::Malformed),
{
    let layers_key: String = "layers".to_owned();
    let media_key: String = "mediaType".to_owned();
    let digest_key: String = "digest".to_owned();
    let items = match get_member(manifest, &layers_key) {
        Some(JsonValue::Array(items)) => items,
        _ => return Err(ProtocolError::Malformed),
    };
    let ghost s = items@;
    let mut out: Vec<LayerDescriptor> = Vec::new();
    let mut i: usize = 0;
    while i < items.len()
        invariant
            i <= items@.len(),
            s == items@,
            array_member(*manifest, "layers"@) == Some(s),
            media_key@ == "mediaType"@,
            digest_key@ == "digest"@,
            forall|j: int| 0 <= j < i ==> layer_entry(s[j]) is Some,
            out@.len() == i,
            forall|j: int|
                0 <= j < i ==> (out@[j].media_type@, out@[j].digest@) == layer_entry(s[j])->Some_0,
        decreases items.len() - i,
    {
        let m = get_text(&items[i], &media_key);
        let d = get_text(&items[i], &digest_key);
        match (m, d) {
            (Some(media_type), Some(digest)) => {
                out.push(LayerDescriptor { media_type, digest });
            },
            _ => return Err(ProtocolError::Malformed),
        }
        i = i + 1;
    }
    assert(descriptor_views(out@) =~= s.map_values(|v: JsonValue| layer_entry(v)->Some_0));
    Ok(out)
}

/// Whether the top-level content is a manifest, recognized by its "layers"
/// field, or a platform index, whose entries are read.
pub fn classify_content(content: &JsonValue) -> (r: Result<ImageContent, ProtocolError>)
    ensures
        member(*content, "layers"@) is Some ==> r is Ok && r->Ok_0 is Manifest,
        member(*content, "layers"@) is None ==> {
            &&& r is Ok <==> array_member(*content, "manifests"@) is Some && forall|i: int|
                0 <= i < array_member(*content, "manifests"@)->Some_0.len() ==> index_entry(
                    array_member(*content, "manifests"@)->Some_0[i],
                ) is Some
            &&& r is Ok ==> r->Ok_0 is Index && entry_views(r->Ok_0->Index_0@) == array_member(
                *content,
                "manifests"@,
            )->Some_0.map_values(|v: JsonValue| index_entry(v)->Some_0)
        },
        r is Err ==> r == Err::<ImageContent, ProtocolError>(ProtocolError::Malformed),
{
    let layers_key: String = "layers".to_owned();
    let found = get_member(content, &layers_key);
    if found.is_some() {
        return Ok(ImageContent::Manifest);
    }
    let manifests_key: String = "manifests".to_owned();
    let platform_key: String = "platform".to_owned();
    let arch_key: String = "architecture".to_owned();
    let os_key: String = "os".to_owned();
    let digest_key: String = "digest".to_owned();
    let items = match get_member(content, &manifests_key) {
        Some(JsonValue::Array(items)) => items,
        _ => return Err(ProtocolError::Malformed),
    };
    let ghost s = items@;
    let mut out: Vec<IndexEntry> = Vec::new();
    let mut i: usize = 0;
    while i < items.len()
        invariant
            i <= items@.len(),
            s == items@,
            array_member(*content, "manifests"@) == Some(s),
            platform_key@ == "platform"@,
            arch_key@ == "architecture"@,
            os_key@ == "os"@,
            digest_key@ == "digest"@,
            forall|j: int| 0 <= j < i ==> index_entry(s[j]) is Some,
            member(*content, "layers"@) is None,
            out@.len() == i,
            forall|j: int|
                0 <= j < i ==> (out@[j].architecture@, out@[j].os@, out@[j].digest@) == index_entry(
                    s[j],
                )->Some_0,
        decreases items.len() - i,
    {
        let platform = match get_member(&items[i], &platform_key) {
            Some(p) => p,
            None => return Err(ProtocolError::Malformed),
        };
        let a = get_text(platform, &arch_key);
        let o = get_text(platform, &os_key);
        let d = get_text(&items[i], &digest_key);
        match (a, o, d) {
            (Some(architecture), Some(os), Some(digest)) => {
                out.push(IndexEntry { architecture, os, digest });
            },
            _ => return Err(ProtocolError::Malformed),
        }
        i = i + 1;
    }
    assert(entry_views(out@) =~= s.map_values(|v: JsonValue| index_entry(v)->Some_0));
    Ok(ImageContent::Index(out))
}

/// The strings of an optional list field: absent or null gives an empty list.
pub fn get_text_list(v: &JsonValue, key: &String) -> (r: Result<Vec<String>, ProtocolError>)
    ensures
        r is Ok <==> text_list(member(*v, key@)) is Some,
        r is Ok ==> string_views(r->Ok_0@) == text_list(member(*v, key@))->Some_0,
        r is Err ==> r == Err::<Vec<String>, ProtocolError>(ProtocolError::Malformed),
{
    let items = match get_member(v, key) {
        None => return Ok(Vec::new()),
        Some(JsonValue::Null) => {
            assert(string_views(Seq::<String>::empty()) =~= Seq::<Seq<char>>::empty());
            return Ok(Vec::new());
        },
        Some(JsonValue::Array(items)) => items,
        _ => return Err(ProtocolError::Malformed),
    };
    let ghost s = items@;
    let mut out: Vec<String> = Vec::new();
    let mut i: usize = 0;
    while i < items.len()
        invariant
            i <= items@.len(),
            s == items@,
            member(*v, key@) == Some(JsonValue::Array(*items)),
            forall|j: int| 0 <= j < i ==> s[j] is Text,
            out@.len() == i,
            forall|j: int| 0 <= j < i ==> out@[j]@ == s[j]->Text_0@,
        decreases items.len() - i,
    {
        match &items[i] {
            JsonValue::Text(t) => out.push(t.clone()),
            _ => return Err(ProtocolError::Malformed),
        }
        i = i + 1;
    }
    assert(string_views(out@) =~= s.map_values(|x: JsonValue| x->Text_0@));
    Ok(out)
}

/// The image specification carried by an image status document.
pub open spec fn image_spec(status: JsonValue) -> JsonValue {
    member(status, "imageSpec"@)->Some_0
}

pub open spec fn rootfs_section(status: JsonValue) -> JsonValue {
    member(image_spec(status), "rootfs"@)->Some_0
}

/// The runtime section of an image specification; an absent one reads as null.
pub open spec fn config_section(status: JsonValue) -> JsonValue {
    match member(image_spec(status), "config"@) {
        Some(c) => c,
        None => JsonValue::Null,
    }
}

/// Whether an image status document holds a usable image configuration.
pub open spec fn config_well_formed(status: JsonValue) -> bool {
    &&& member(status, "imageSpec"@) matches Some(JsonValue::Object(_))
    &&& member(image_spec(status), "rootfs"@) is Some
    &&& member(rootfs_section(status), "diff_ids"@) is Some
    &&& text_list(member(rootfs_section(status), "diff_ids"@)) is Some
    &&& text_list(member(config_section(status), "Env"@)) is Some
    &&& text_list(member(config_section(status), "Entrypoint"@)) is Some
    &&& text_list(member(config_section(status), "Cmd"@)) is Some
}

/// Reads the image configuration out of an image status document.
pub fn parse_config_layer(status: &JsonValue) -> (r: Result<DockerConfigLayer, ProtocolError>)
    ensures
        r is Ok <==> config_well_formed(*status),
        r is Err ==> r == Err::<DockerConfigLayer, ProtocolError>(ProtocolError::Malformed),
        r matches Ok(c) ==> {
            &&& string_views(c.rootfs.diff_ids@) == text_list(
                member(rootfs_section(*status), "diff_ids"@),
            )->Some_0
            &&& c.rootfs.fs_type@ == text_or_empty(member(rootfs_section(*status), "type"@))
            &&& c.architecture@ == text_or_empty(member(image_spec(*status), "architecture"@))
            &&& c.config.user@ == text_or_empty(member(config_section(*status), "User"@))
            &&& c.config.working_dir@ == text_or_empty(
                member(config_section(*status), "WorkingDir"@),
            )
            &&& string_views(c.config.env@) == text_list(member(config_section(*status), "Env"@))->Some_0
            &&& string_views(c.config.entrypoint@) == text_list(
                member(config_section(*status), "Entrypoint"@),
            )->Some_0
            &&& string_views(c.config.cmd@) == text_list(member(config_section(*status), "Cmd"@))->Some_0
        },
{
    let spec_key: String = "imageSpec".to_owned();
    let spec = match get_member(status, &spec_key) {
        Some(x) => match x {
            JsonValue::Object(_) => x,
            _ => return Err(ProtocolError::Malformed),
        },
        None => return Err(ProtocolError::Malformed),
    };
    let rootfs_key: String = "rootfs".to_owned();
    let rootfs = match get_member(spec, &rootfs_key) {
        Some(x) => x,
        None => return Err(ProtocolError::Malformed),
    };
    let diff_ids_key: String = "diff_ids".to_owned();
    if get_member(rootfs, &diff_ids_key).is_none() {
        return Err(ProtocolError::Malformed);
    }
    let diff_ids = get_text_list(rootfs, &diff_ids_key)?;
    let config_key: String = "config".to_owned();
    let null = JsonValue::Null;
    let section = match get_member(spec, &config_key) {
        Some(c) => c,
        None => &null,
    };
    let env = get_text_list(section, &"Env".to_owned())?;
    let entrypoint = get_text_list(section, &"Entrypoint".to_owned())?;
    let cmd = get_text_list(section, &"Cmd".to_owned())?;
    Ok(DockerConfigLayer {
        architecture: text_or_default(spec, &"architecture".to_owned()),
        config: DockerImageConfig {
            user: text_or_default(section, &"User".to_owned()),
            env,
            entrypoint,
            cmd,
            working_dir: text_or_default(section, &"WorkingDir".to_owned()),
        },
        rootfs: DockerRootfs { fs_type: text_or_default(rootfs, &"type".to_owned()), diff_ids },
    })
}

fn text_or_default(v: &JsonValue, key: &String) -> (r: String)
    ensures
        r@ == text_or_empty(member(*v, key@)),
{
    match get_text(v, key) {
        Some(s) => s,
        None => String::new(),
    }
}

} // verus!
