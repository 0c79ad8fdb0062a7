use vstd::prelude::*;

verus! {

/// A stored audio clip. The playback core reads only `id` and `name`; the
/// other fields belong to the storage layer.
#[derive(Clone, Debug, PartialEq, Eq)]
pub struct Sound {
    pub id: String,
    pub name: String,
    pub extension: String,
    pub file_name: String,
    pub file_hash: String,
}

/// A tag attached to a sound.
#[derive(Clone, Debug, PartialEq, Eq)]
pub struct Tag {
    pub id: String,
    pub sound_id: String,
    pub slug: String,
}

/// A sound together with the slugs of its tags, as listed to clients.
#[derive(Clone, Debug, PartialEq, Eq)]
pub struct SoundWithTags {
    pub id: String,
    pub name: String,
    pub extension: String,
    pub file_name: String,
    pub file_hash: String,
    pub tags: Vec<String>,
}

/// The text of a sound's fields.
pub ghost struct SoundView {
    pub id: Seq<char>,
    pub name: Seq<char>,
    pub extension: Seq<char>,
    pub file_name: Seq<char>,
    pub file_hash: Seq<char>,
}

impl View for Sound {
    type V = SoundView;

    open spec fn view(&self) -> SoundView {
        SoundView {
            id: self.id@,
            name: self.name@,
            extension: self.extension@,
            file_name: self.file_name@,
            file_hash: self.file_hash@,
        }
    }
}

impl Sound {
    /// A sound that carries only the identity the playback core needs.
    pub fn with_identity(id: String, name: String) -> (r: Sound)
        ensures
            r@.id == id@,
            r@.name == name@,
            r@.extension.len() == 0,
            r@.file_name.len() == 0,
            r@.file_hash.len() == 0,
    {
        Sound { id, name, extension: String::new(), file_name: String::new(), file_hash: String::new() }
    }

    /// A copy with the same text in every field.
    pub fn duplicate(&self) -> (r: Sound)
        ensures
            r@ == self@,
    {
        Sound {
            id: self.id.clone(),
            name: self.name.clone(),
            extension: self.extension.clone(),
            file_name: self.file_name.clone(),
            file_hash: self.file_hash.clone(),
        }
    }
}

impl SoundWithTags {
    /// The listing of `sound` with the slugs of `tags`, in order; the
    /// extension is shown with its leading dot.
    pub fn from_sound(sound: Sound, tags: Vec<Tag>) -> (r: SoundWithTags)
        ensures
            r.id@ == sound.id@,
            r.name@ == sound.name@,
            r.extension@ == seq!['.'] + sound.extension@,
            r.file_name@ == sound.file_name@,
            r.file_hash@ == sound.file_hash@,
            r.tags@.len() == tags@.len(),
            forall|i: int| 0 <= i < tags@.len() ==> #[trigger] r.tags@[i]@ == tags@[i].slug@,
    {
        let mut slugs: Vec<String> = Vec::new();
        let mut i: usize = 0;
        while i < tags.len()
            invariant
                i <= tags@.len(),
                slugs@.len() == i,
                forall|k: int| 0 <= k < i ==> #[trigger] slugs@[k]@ == tags@[k].slug@,
            decreases tags@.len() - i,
        {
            slugs.push(tags[i].slug.clone());
            i = i + 1;
        }
        let mut extension = String::from_str(".");
        proof {
            reveal_strlit(".");
        }
        extension.append(sound.extension.as_str());
        SoundWithTags {
            id: sound.id,
            name: sound.name,
            extension,
            file_name: sound.file_name,
            file_hash: sound.file_hash,
            tags: slugs,
        }
    }
}

} // verus!
