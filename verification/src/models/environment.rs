use crate::models::user_name::UserName;
use crate::text::{copy_str, push_str};
use vstd::prelude::*;

verus! {

/// Where the library keeps its files: instance data under the data
/// directory, downloaded images under the cache directory.
pub struct Environment {
    user: UserName,
    data_dir: String,
    cache_dir: String,
}

impl Environment {
    /// The default user of new instances.
    pub closed spec fn user_view(&self) -> Seq<char> {
        self.user@
    }

    /// The directory of instance data.
    pub closed spec fn data_dir_view(&self) -> Seq<char> {
        self.data_dir@
    }

    /// The directory of cached downloads.
    pub closed spec fn cache_dir_view(&self) -> Seq<char> {
        self.cache_dir@
    }

    pub fn new(user: UserName, data_dir: String, cache_dir: String) -> (r: Environment)
        ensures
            r.user_view() == user@,
            r.data_dir_view() == data_dir@,
            r.cache_dir_view() == cache_dir@,
    {
        Environment { user, data_dir, cache_dir }
    }

    /// The default user of new instances.
    pub fn get_user(&self) -> (r: &UserName)
        ensures
            r@ == self.user_view(),
    {
        &self.user
    }

    /// The disk image of an instance: `<data>/machines/<name>/machine.img`.
    pub fn get_instance_image_file(&self, name: &str) -> (r: String)
        ensures
            r@ == self.data_dir_view() + "/machines/"@ + name@ + "/machine.img"@,
    {
        let mut r = copy_str(self.data_dir.as_str());
        push_str(&mut r, "/machines/");
        push_str(&mut r, name);
        push_str(&mut r, "/machine.img");
        r
    }

    /// The directory of downloaded images: `<cache>/images`.
    pub fn get_image_dir(&self) -> (r: String)
        ensures
            r@ == self.cache_dir_view() + "/images"@,
    {
        let mut r = copy_str(self.cache_dir.as_str());
        push_str(&mut r, "/images");
        r
    }

    /// A downloaded image: `<cache>/images/<file>`.
    pub fn get_image_file(&self, file: &str) -> (r: String)
        ensures
            r@ == self.cache_dir_view() + "/images/"@ + file@,
    {
        let mut r = copy_str(self.cache_dir.as_str());
        push_str(&mut r, "/images/");
        push_str(&mut r, file);
        r
    }

    /// The cached list of images: `<cache>/images.json`.
    pub fn get_image_cache_file(&self) -> (r: String)
        ensures
            r@ == self.cache_dir_view() + "/images.json"@,
    {
        let mut r = copy_str(self.cache_dir.as_str());
        push_str(&mut r, "/images.json");
        r
    }
}

impl Clone for Environment {
    fn clone(&self) -> (r: Self)
        ensures
            r.user_view() == self.user_view(),
            r.data_dir_view() == self.data_dir_view(),
            r.cache_dir_view() == self.cache_dir_view(),
    {
        Environment {
            user: self.user.clone(),
            data_dir: copy_str(self.data_dir.as_str()),
            cache_dir: copy_str(self.cache_dir.as_str()),
        }
    }
}

} // verus!
