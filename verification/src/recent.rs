//! The recent files of each application instance.
//!
//! An instance is named by its bundle identifier. The store keeps, for each
//! identifier it has seen, the list of paths it was last given, in the order
//! in which they were given. It lives in memory only.

use vstd::prelude::*;
use vstd::hash_map::StringHashMap;
use crate::events::texts;

verus! {

/// The store: a map from instance identifiers to path lists.
pub struct RecentFiles {
    lists: StringHashMap<Vec<String>>,
}

/// The store that holds no instance.
pub open spec fn no_instances() -> Map<Seq<char>, Seq<Seq<char>>> {
    Map::empty()
}

impl View for RecentFiles {
    type V = Map<Seq<char>, Seq<Seq<char>>>;

    closed spec fn view(&self) -> Map<Seq<char>, Seq<Seq<char>>> {
        Map::new(
            |app_id: Seq<char>| self.lists@.contains_key(app_id),
            |app_id: Seq<char>| texts(self.lists@[app_id]@),
        )
    }
}

impl RecentFiles {
    /// A store that has seen no instance.
    pub fn new() -> (r: Self)
        ensures
            r@ == no_instances(),
    {
        let r = RecentFiles { lists: StringHashMap::new() };
        assert(r@ =~= no_instances());
        r
    }

    /// Stores `files` for the instance `app_id`, in place of what was stored
    /// for it before. Other instances keep their lists.
    pub fn insert(&mut self, app_id: &str, files: Vec<String>)
        ensures
            final(self)@ == old(self)@.insert(app_id@, texts(files@)),
    {
        let ghost stored = texts(files@);
        self.lists.insert(String::from_str(app_id), files);
        assert(self@ =~= old(self)@.insert(app_id@, stored));
    }

    /// The list stored for the instance `app_id`, if one was ever stored.
    pub fn get(&self, app_id: &str) -> (r: Option<&Vec<String>>)
        ensures
            match r {
                Some(files) => self@.contains_key(app_id@) && self@[app_id@] == texts(files@),
                None => !self@.contains_key(app_id@),
            },
    {
        self.lists.get(app_id)
    }
}

} // verus!
