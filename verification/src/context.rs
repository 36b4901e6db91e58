//! The per-item records that travel through the pipeline: the immutable
//! [`Post`] under evaluation and the mutable scoring [`Context`].

use vstd::prelude::*;

verus! {

/// The item under evaluation: some text content together with its
/// engagement count. A stage never mutates a post.
#[derive(Debug)]
pub struct Post {
    /// The textual content of the item.
    pub text: String,
    /// The engagement count; non-negative in practice, but carried in the
    /// same signed type as `Context::weight`, into which it is copied.
    pub likes: i64,
}

/// The scoring record associated with one item as it travels through the
/// pipeline. A stage that wants to change it first takes an independent
/// copy and mutates only that copy.
#[derive(Debug)]
pub struct Context {
    /// The item under evaluation, if one survived the earlier stages.
    pub post: Option<Post>,
    /// The accumulated signal; `-1` means "no signal".
    pub weight: i64,
}

impl Post {
    /// An independent, owned copy, equal to `self` in every field.
    pub fn duplicate(&self) -> (r: Post)
        ensures
            r == *self,
    {
        Post { text: self.text.clone(), likes: self.likes }
    }
}

impl Context {
    /// An independent, owned copy, equal to `self` in every field; the
    /// clone-before-mutate discipline of the pipeline starts here.
    pub fn duplicate(&self) -> (r: Context)
        ensures
            r == *self,
    {
        let post: Option<Post> = match &self.post {
            Some(p) => Some(p.duplicate()),
            None => None,
        };
        Context { post, weight: self.weight }
    }
}

} // verus!
