//! Resource Management Module
//!
//! Handles loading and caching of game assets. Reading files is left to the
//! caller; the manager keeps what was read, keyed by resource id.

use vstd::prelude::*;
use crate::strmap::StrMap;
use crate::text::{ascii_lower, eq_ascii_lower, equals_ascii_lower};

verus! {

/// Resource types
#[derive(Debug, Clone, Copy, PartialEq, Eq, Hash, Structural)]
pub enum ResourceType {
    Texture,
    Audio,
    Font,
    Data,
    Script,
}

/// The resource type that a file extension names, its ASCII letters taken
/// without regard to case; `None` for an extension that names none.
pub open spec fn extension_type(ext: Seq<char>) -> Option<ResourceType> {
    if eq_ascii_lower(ext, seq!['p', 'n', 'g']) || eq_ascii_lower(ext, seq!['j', 'p', 'g'])
        || eq_ascii_lower(ext, seq!['j', 'p', 'e', 'g']) || eq_ascii_lower(ext, seq!['b', 'm', 'p'])
        || eq_ascii_lower(ext, seq!['g', 'i', 'f']) {
        Some(ResourceType::Texture)
    } else if eq_ascii_lower(ext, seq!['w', 'a', 'v']) || eq_ascii_lower(ext, seq!['m', 'p', '3'])
        || eq_ascii_lower(ext, seq!['o', 'g', 'g']) || eq_ascii_lower(ext, seq!['f', 'l', 'a', 'c']) {
        Some(ResourceType::Audio)
    } else if eq_ascii_lower(ext, seq!['t', 't', 'f']) || eq_ascii_lower(ext, seq!['o', 't', 'f']) {
        Some(ResourceType::Font)
    } else if eq_ascii_lower(ext, seq!['j', 's', 'o', 'n']) || eq_ascii_lower(ext, seq!['t', 'o', 'm', 'l'])
        || eq_ascii_lower(ext, seq!['y', 'a', 'm', 'l']) {
        Some(ResourceType::Data)
    } else if eq_ascii_lower(ext, seq!['p', 'y']) {
        Some(ResourceType::Script)
    } else {
        None
    }
}

impl ResourceType {
    /// The resource type for a file extension, as a directory scan assigns it.
    pub fn from_extension(ext: &str) -> (r: Option<ResourceType>)
        ensures
            r == extension_type(ext@),
    {
        proof {
            reveal_strlit("png");
            reveal_strlit("jpg");
            reveal_strlit("jpeg");
            reveal_strlit("bmp");
            reveal_strlit("gif");
            reveal_strlit("wav");
            reveal_strlit("mp3");
            reveal_strlit("ogg");
            reveal_strlit("flac");
            reveal_strlit("ttf");
            reveal_strlit("otf");
            reveal_strlit("json");
            reveal_strlit("toml");
            reveal_strlit("yaml");
            reveal_strlit("py");
            assert("png"@ =~= seq!['p', 'n', 'g']);
            assert("jpg"@ =~= seq!['j', 'p', 'g']);
            assert("jpeg"@ =~= seq!['j', 'p', 'e', 'g']);
            assert("bmp"@ =~= seq!['b', 'm', 'p']);
            assert("gif"@ =~= seq!['g', 'i', 'f']);
            assert("wav"@ =~= seq!['w', 'a', 'v']);
            assert("mp3"@ =~= seq!['m', 'p', '3']);
            assert("ogg"@ =~= seq!['o', 'g', 'g']);
            assert("flac"@ =~= seq!['f', 'l', 'a', 'c']);
            assert("ttf"@ =~= seq!['t', 't', 'f']);
            assert("otf"@ =~= seq!['o', 't', 'f']);
            assert("json"@ =~= seq!['j', 's', 'o', 'n']);
            assert("toml"@ =~= seq!['t', 'o', 'm', 'l']);
            assert("yaml"@ =~= seq!['y', 'a', 'm', 'l']);
            assert("py"@ =~= seq!['p', 'y']);
        }
        if equals_ascii_lower(ext, "png") || equals_ascii_lower(ext, "jpg") || equals_ascii_lower(ext, "jpeg")
            || equals_ascii_lower(ext, "bmp") || equals_ascii_lower(ext, "gif") {
            Some(ResourceType::Texture)
        } else if equals_ascii_lower(ext, "wav") || equals_ascii_lower(ext, "mp3") || equals_ascii_lower(ext, "ogg")
            || equals_ascii_lower(ext, "flac") {
            Some(ResourceType::Audio)
        } else if equals_ascii_lower(ext, "ttf") || equals_ascii_lower(ext, "otf") {
            Some(ResourceType::Font)
        } else if equals_ascii_lower(ext, "json") || equals_ascii_lower(ext, "toml") || equals_ascii_lower(
            ext,
            "yaml",
        ) {
            Some(ResourceType::Data)
        } else if equals_ascii_lower(ext, "py") {
            Some(ResourceType::Script)
        } else {
            None
        }
    }
}

/// Resource handle for referencing loaded assets
#[derive(Debug, Clone, PartialEq, Eq, Hash)]
pub struct ResourceHandle {
    pub id: String,
    pub resource_type: ResourceType,
}

#[derive(Debug, Clone)]
pub struct ResourceMetadata {
    pub path: String,
    pub resource_type: ResourceType,
    pub size: usize,
}

/// Resource manager for loading and caching assets
pub struct ResourceManager {
    /// Base path for assets
    base_path: String,
    /// Cached raw data
    raw_data: StrMap<Vec<u8>>,
    /// Resource metadata
    metadata: StrMap<ResourceMetadata>,
}

impl ResourceManager {
    /// The base path, as characters.
    pub closed spec fn base(&self) -> Seq<char> {
        self.base_path@
    }

    /// The loaded data, by resource id.
    pub closed spec fn data(&self) -> Map<Seq<char>, Seq<u8>> {
        self.raw_data@.map_values(|v: Vec<u8>| v@)
    }

    /// The metadata, by resource id.
    pub closed spec fn metadata(&self) -> Map<Seq<char>, ResourceMetadata> {
        self.metadata@
    }

    /// The ids of the loaded resources, in the order they were first loaded.
    pub closed spec fn loaded_order(&self) -> Seq<Seq<char>> {
        self.raw_data.key_order()
    }

    /// Data and metadata are kept for the same ids, each metadata records the
    /// size of its data, and the load order lists each loaded id once.
    pub closed spec fn wf(&self) -> bool {
        &&& self.raw_data@.dom() == self.metadata@.dom()
        &&& forall|id: Seq<char>| #[trigger] self.metadata@.contains_key(id) ==> self.metadata@[id].size
            == self.raw_data@[id]@.len()
        &&& self.raw_data.keys_match()
    }

    pub fn new(base_path: &str) -> (m: Self)
        ensures
            m.wf(),
            m.base() == base_path@,
            m.data() == Map::<Seq<char>, Seq<u8>>::empty(),
            m.metadata() == Map::<Seq<char>, ResourceMetadata>::empty(),
            m.loaded_order() == Seq::<Seq<char>>::empty(),
    {
        let m = ResourceManager {
            base_path: base_path.to_owned(),
            raw_data: StrMap::new(),
            metadata: StrMap::new(),
        };
        assert(m.data() =~= Map::<Seq<char>, Seq<u8>>::empty());
        assert(m.loaded_order() =~= Seq::<Seq<char>>::empty());
        m
    }

    /// Records the outcome of reading the file `relative_path` for resource `id`.
    ///
    /// `contents` is what reading the file under the base path gave: its bytes,
    /// or the reason it failed. On success the bytes and their metadata are
    /// stored under `id`; on failure nothing changes and the error names the file.
    pub fn load_file(
        &mut self,
        id: &str,
        relative_path: &str,
        resource_type: ResourceType,
        contents: Result<Vec<u8>, String>,
    ) -> (r: Result<(), String>)
        requires
            old(self).wf(),
        ensures
            final(self).wf(),
            final(self).base() == old(self).base(),
            match contents {
                Ok(data) => {
                    &&& r is Ok
                    &&& final(self).data() == old(self).data().insert(id@, data@)
                    &&& final(self).metadata().contains_key(id@)
                    &&& final(self).metadata() == old(self).metadata().insert(id@, final(self).metadata()[id@])
                    &&& final(self).metadata()[id@].path@ == relative_path@
                    &&& final(self).metadata()[id@].resource_type == resource_type
                    &&& final(self).metadata()[id@].size == data@.len()
                    &&& final(self).loaded_order() == if old(self).data().contains_key(id@) {
                        old(self).loaded_order()
                    } else {
                        old(self).loaded_order().push(id@)
                    }
                },
                Err(e) => {
                    &&& r matches Err(msg) && msg@ == load_error_message(relative_path@, e@)
                    &&& final(self).data() == old(self).data()
                    &&& final(self).metadata() == old(self).metadata()
                    &&& final(self).loaded_order() == old(self).loaded_order()
                },
            },
    {
        match contents {
            Ok(data) => {
                let metadata = ResourceMetadata {
                    path: relative_path.to_owned(),
                    resource_type,
                    size: data.len(),
                };
                let ghost d = data@;
                self.raw_data.insert(id.to_owned(), data);
                self.metadata.insert(id.to_owned(), metadata);
                assert(self.data() =~= old(self).data().insert(id@, d));
                proof {
                    if old(self).data().contains_key(id@) {
                        assert(old(self).raw_data@.contains_key(id@));
                        assert(self.loaded_order() =~= old(self).loaded_order());
                    } else {
                        assert(self.loaded_order() =~= old(self).loaded_order().push(id@));
                    }
                }
                Ok(())
            },
            Err(e) => Err(load_error(relative_path, e.as_str())),
        }
    }

    /// Get raw data for a resource
    pub fn get_data(&self, id: &str) -> (r: Option<&Vec<u8>>)
        ensures
            match r {
                Some(v) => self.data().contains_key(id@) && self.data()[id@] == v@,
                None => !self.data().contains_key(id@),
            },
    {
        self.raw_data.get(id)
    }

    /// Check if a resource is loaded
    pub fn is_loaded(&self, id: &str) -> (b: bool)
        ensures
            b == self.data().contains_key(id@),
    {
        self.raw_data.contains_key(id)
    }

    /// Unload a resource
    pub fn unload(&mut self, id: &str)
        requires
            old(self).wf(),
        ensures
            final(self).wf(),
            final(self).data() == old(self).data().remove(id@),
            final(self).metadata() == old(self).metadata().remove(id@),
            final(self).base() == old(self).base(),
            old(self).data().contains_key(id@) ==> exists|i: int|
                0 <= i < old(self).loaded_order().len() && old(self).loaded_order()[i] == id@
                    && final(self).loaded_order() == old(self).loaded_order().remove(i),
            !old(self).data().contains_key(id@) ==> final(self).loaded_order() == old(self).loaded_order(),
    {
        self.raw_data.remove(id);
        self.metadata.remove(id);
        assert(self.data() =~= old(self).data().remove(id@));
        proof {
            if old(self).data().contains_key(id@) {
                let i = choose|i: int|
                    0 <= i < old(self).raw_data.entries_view().len() && old(self).raw_data.entries_view()[i].0 == id@
                        && self.raw_data.entries_view() == old(self).raw_data.entries_view().remove(i);
                assert(self.loaded_order() =~= old(self).loaded_order().remove(i));
                assert(old(self).loaded_order()[i] == id@);
            } else {
                assert(self.loaded_order() =~= old(self).loaded_order());
            }
        }
    }

    /// Get all loaded resource IDs, in the order they were first loaded
    pub fn loaded_ids(&self) -> (ids: Vec<String>)
        ensures
            ids@.map_values(|s: String| s@) == self.loaded_order(),
    {
        let ids = self.raw_data.keys();
        assert(ids@.map_values(|s: String| s@) =~= self.loaded_order());
        ids
    }

    /// Get metadata for a resource
    pub fn get_metadata(&self, id: &str) -> (r: Option<&ResourceMetadata>)
        ensures
            match r {
                Some(m) => self.metadata().contains_key(id@) && self.metadata()[id@] == *m,
                None => !self.metadata().contains_key(id@),
            },
    {
        self.metadata.get(id)
    }

    /// Set base path
    pub fn set_base_path(&mut self, path: &str)
        requires
            old(self).wf(),
        ensures
            final(self).wf(),
            final(self).loaded_order() == old(self).loaded_order(),
            final(self).base() == path@,
            final(self).data() == old(self).data(),
            final(self).metadata() == old(self).metadata(),
    {
        self.base_path = path.to_owned();
    }

    /// Get base path
    pub fn base_path(&self) -> (p: &str)
        ensures
            p@ == self.base(),
    {
        self.base_path.as_str()
    }
}

/// The message for a file that could not be read: `Failed to load '<path>': <reason>`.
pub open spec fn load_error_message(path: Seq<char>, reason: Seq<char>) -> Seq<char> {
    seq!['F', 'a', 'i', 'l', 'e', 'd', ' ', 't', 'o', ' ', 'l', 'o', 'a', 'd', ' ', '\''] + path + seq![
        '\'',
        ':',
        ' ',
    ] + reason
}

fn load_error(path: &str, reason: &str) -> (m: String)
    ensures
        m@ == load_error_message(path@, reason@),
{
    let mut m = String::new();
    proof {
        reveal_strlit("Failed to load '");
        reveal_strlit("': ");
    }
    m.append("Failed to load '");
    m.append(path);
    m.append("': ");
    m.append(reason);
    assert(m@ =~= load_error_message(path@, reason@));
    m
}

impl Default for ResourceManager {
    fn default() -> (m: Self)
        ensures
            m.wf(),
            m.base() == seq!['.', '/', 'a', 's', 's', 'e', 't', 's'],
            m.data() == Map::<Seq<char>, Seq<u8>>::empty(),
            m.metadata() == Map::<Seq<char>, ResourceMetadata>::empty(),
            m.loaded_order() == Seq::<Seq<char>>::empty(),
    {
        proof {
            reveal_strlit("./assets");
        }
        let m = Self::new("./assets");
        assert(m.base() =~= seq!['.', '/', 'a', 's', 's', 'e', 't', 's']);
        m
    }
}

/// Law (data and metadata go together): in a manager made by `new` and
/// changed only by the manager's own functions, an id has metadata exactly
/// when it has data, the metadata records the data's size, and `loaded_ids`
/// lists every loaded id once.
pub proof fn law_metadata_matches_data(m: ResourceManager, id: Seq<char>)
    requires
        m.wf(),
    ensures
        m.metadata().contains_key(id) == m.data().contains_key(id),
        m.metadata().contains_key(id) ==> m.metadata()[id].size == m.data()[id].len(),
        m.loaded_order().no_duplicates(),
        m.loaded_order().to_set() == m.data().dom(),
{
    assert(m.data().dom() =~= m.raw_data@.dom());
}

/// Law (a load reads back, an unload forgets): after a successful
/// `load_file` of `bytes` under `id`, `get_data(id)` gives `bytes` and other
/// resources are untouched; after `unload(id)`, `is_loaded(id)` is false and
/// other resources are untouched.
pub proof fn law_load_then_get(
    before: ResourceManager,
    loaded: ResourceManager,
    unloaded: ResourceManager,
    id: Seq<char>,
    bytes: Seq<u8>,
    other: Seq<char>,
)
    requires
        other != id,
        loaded.data() == before.data().insert(id, bytes),
        unloaded.data() == loaded.data().remove(id),
    ensures
        loaded.data().contains_key(id) && loaded.data()[id] == bytes,
        loaded.data().contains_key(other) == before.data().contains_key(other),
        before.data().contains_key(other) ==> loaded.data()[other] == before.data()[other],
        !unloaded.data().contains_key(id),
        unloaded.data().contains_key(other) == before.data().contains_key(other),
{
}

/// Law (extensions classify as documented): png, jpg, jpeg, bmp and gif are
/// textures; wav, mp3, ogg and flac audio; ttf and otf fonts; json, toml and
/// yaml data; py scripts (ASCII case ignored); any other extension is none.
pub proof fn law_extension_types(ext: Seq<char>)
    ensures
        eq_ascii_lower(ext, "png"@) || eq_ascii_lower(ext, "jpg"@) || eq_ascii_lower(ext, "jpeg"@) || eq_ascii_lower(ext, "bmp"@) || eq_ascii_lower(ext, "gif"@) ==> extension_type(ext) == Some(ResourceType::Texture),
        eq_ascii_lower(ext, "wav"@) || eq_ascii_lower(ext, "mp3"@) || eq_ascii_lower(ext, "ogg"@) || eq_ascii_lower(ext, "flac"@) ==> extension_type(ext) == Some(ResourceType::Audio),
        eq_ascii_lower(ext, "ttf"@) || eq_ascii_lower(ext, "otf"@) ==> extension_type(ext) == Some(ResourceType::Font),
        eq_ascii_lower(ext, "json"@) || eq_ascii_lower(ext, "toml"@) || eq_ascii_lower(ext, "yaml"@) ==> extension_type(ext) == Some(ResourceType::Data),
        eq_ascii_lower(ext, "py"@) ==> extension_type(ext) == Some(ResourceType::Script),
        !(eq_ascii_lower(ext, "png"@) || eq_ascii_lower(ext, "jpg"@) || eq_ascii_lower(ext, "jpeg"@) || eq_ascii_lower(ext, "bmp"@) || eq_ascii_lower(ext, "gif"@) || eq_ascii_lower(ext, "wav"@) || eq_ascii_lower(ext, "mp3"@) || eq_ascii_lower(ext, "ogg"@) || eq_ascii_lower(ext, "flac"@) || eq_ascii_lower(ext, "ttf"@) || eq_ascii_lower(ext, "otf"@) || eq_ascii_lower(ext, "json"@) || eq_ascii_lower(ext, "toml"@) || eq_ascii_lower(ext, "yaml"@) || eq_ascii_lower(ext, "py"@)) ==> extension_type(ext) is None,
{
    reveal_strlit("png");
    reveal_strlit("jpg");
    reveal_strlit("jpeg");
    reveal_strlit("bmp");
    reveal_strlit("gif");
    reveal_strlit("wav");
    reveal_strlit("mp3");
    reveal_strlit("ogg");
    reveal_strlit("flac");
    reveal_strlit("ttf");
    reveal_strlit("otf");
    reveal_strlit("json");
    reveal_strlit("toml");
    reveal_strlit("yaml");
    reveal_strlit("py");
    if eq_ascii_lower(ext, "png"@) {
        assert(ext.len() == 3);
        assert(ascii_lower(ext[0]) == 'p');
        assert(ascii_lower(ext[1]) == 'n');
        assert(ascii_lower(ext[2]) == 'g');
    }
    if eq_ascii_lower(ext, "jpg"@) {
        assert(ext.len() == 3);
        assert(ascii_lower(ext[0]) == 'j');
        assert(ascii_lower(ext[1]) == 'p');
        assert(ascii_lower(ext[2]) == 'g');
    }
    if eq_ascii_lower(ext, "jpeg"@) {
        assert(ext.len() == 4);
        assert(ascii_lower(ext[0]) == 'j');
        assert(ascii_lower(ext[1]) == 'p');
        assert(ascii_lower(ext[2]) == 'e');
        assert(ascii_lower(ext[3]) == 'g');
    }
    if eq_ascii_lower(ext, "bmp"@) {
        assert(ext.len() == 3);
        assert(ascii_lower(ext[0]) == 'b');
        assert(ascii_lower(ext[1]) == 'm');
        assert(ascii_lower(ext[2]) == 'p');
    }
    if eq_ascii_lower(ext, "gif"@) {
        assert(ext.len() == 3);
        assert(ascii_lower(ext[0]) == 'g');
        assert(ascii_lower(ext[1]) == 'i');
        assert(ascii_lower(ext[2]) == 'f');
    }
    if eq_ascii_lower(ext, "wav"@) {
        assert(ext.len() == 3);
        assert(ascii_lower(ext[0]) == 'w');
        assert(ascii_lower(ext[1]) == 'a');
        assert(ascii_lower(ext[2]) == 'v');
    }
    if eq_ascii_lower(ext, "mp3"@) {
        assert(ext.len() == 3);
        assert(ascii_lower(ext[0]) == 'm');
        assert(ascii_lower(ext[1]) == 'p');
        assert(ascii_lower(ext[2]) == '3');
    }
    if eq_ascii_lower(ext, "ogg"@) {
        assert(ext.len() == 3);
        assert(ascii_lower(ext[0]) == 'o');
        assert(ascii_lower(ext[1]) == 'g');
        assert(ascii_lower(ext[2]) == 'g');
    }
    if eq_ascii_lower(ext, "flac"@) {
        assert(ext.len() == 4);
        assert(ascii_lower(ext[0]) == 'f');
        assert(ascii_lower(ext[1]) == 'l');
        assert(ascii_lower(ext[2]) == 'a');
        assert(ascii_lower(ext[3]) == 'c');
    }
    if eq_ascii_lower(ext, "ttf"@) {
        assert(ext.len() == 3);
        assert(ascii_lower(ext[0]) == 't');
        assert(ascii_lower(ext[1]) == 't');
        assert(ascii_lower(ext[2]) == 'f');
    }
    if eq_ascii_lower(ext, "otf"@) {
        assert(ext.len() == 3);
        assert(ascii_lower(ext[0]) == 'o');
        assert(ascii_lower(ext[1]) == 't');
        assert(ascii_lower(ext[2]) == 'f');
    }
    if eq_ascii_lower(ext, "json"@) {
        assert(ext.len() == 4);
        assert(ascii_lower(ext[0]) == 'j');
        assert(ascii_lower(ext[1]) == 's');
        assert(ascii_lower(ext[2]) == 'o');
        assert(ascii_lower(ext[3]) == 'n');
    }
    if eq_ascii_lower(ext, "toml"@) {
        assert(ext.len() == 4);
        assert(ascii_lower(ext[0]) == 't');
        assert(ascii_lower(ext[1]) == 'o');
        assert(ascii_lower(ext[2]) == 'm');
        assert(ascii_lower(ext[3]) == 'l');
    }
    if eq_ascii_lower(ext, "yaml"@) {
        assert(ext.len() == 4);
        assert(ascii_lower(ext[0]) == 'y');
        assert(ascii_lower(ext[1]) == 'a');
        assert(ascii_lower(ext[2]) == 'm');
        assert(ascii_lower(ext[3]) == 'l');
    }
    if eq_ascii_lower(ext, "py"@) {
        assert(ext.len() == 2);
        assert(ascii_lower(ext[0]) == 'p');
        assert(ascii_lower(ext[1]) == 'y');
    }
}

} // verus!
