use vstd::prelude::*;
use crate::listops::{first_index, lemma_first_index_found, lemma_first_index_props};
use crate::model::submitted_tag;
use crate::states::{Likes, LikesView, Post, Spling, Tags};
use crate::textnorm::lowercase;
use crate::transfer::{TransferPlan, tip_plan, spec_tip_plan};

verus! {

/// Creates a post with its co-located like record.
pub struct SubmitPost {
    /// The registry, whose post counter issues the new id and whose
    /// tag counter follows the tag index.
    pub spling: Spling,
    /// The post record being created.
    pub post: Post,
    /// The like record co-created with the post.
    pub likes: Likes,
    /// The shared tag index the tag name is resolved against.
    pub tags: Tags,
}

/// Linear scan of the tag index for a (normalized) name: the position
/// of its first occurrence, or `None` when it does not occur.
pub fn find_tag(v: &Vec<String>, name: &String) -> (r: Option<usize>)
    ensures
        match r {
            Some(i) => 0 <= i < v@.len() && first_index(v@.map_values(|s: String| s@), name@)
                == i,
            None => first_index(v@.map_values(|s: String| s@), name@) == -1,
        },
{
    let ghost list = v@.map_values(|s: String| s@);
    let n = v.len();
    let mut i: usize = 0;
    while i < n
        invariant
            n == v@.len(),
            list == v@.map_values(|s: String| s@),
            0 <= i <= n,
            forall|j: int| 0 <= j < i ==> list[j] != name@,
        decreases n - i,
    {
        if v[i].eq(name) {
            proof {
                assert(list[i as int] == v@[i as int]@);
                lemma_first_index_found(list, name@, i as int);
            }
            return Some(i);
        }
        proof {
            assert(list[i as int] == v@[i as int]@);
        }
        i = i + 1;
    }
    proof {
        lemma_first_index_props(list, name@);
    }
    None
}

impl SubmitPost {
    /// Fills the fresh post: stamps the time, records the author's id
    /// and the group, assigns the next post id, and resolves the tag
    /// name — empty means untagged, a known name (after lowercasing)
    /// reuses its position, a new name is appended and counted.  The
    /// like record starts empty.  Returns the post id and the
    /// transfer plan of the optional fee payment.
    pub fn process(
        &mut self,
        group_id: u32,
        uid: u32,
        tag_name: &String,
        now: i64,
        amount: Option<u64>,
        post_bump: u8,
        likes_bump: u8,
    ) -> (r: (u32, TransferPlan))
        requires
            old(self).spling.posts < u32::MAX,
            old(self).spling.tags < u16::MAX,
            old(self).tags@.taglist.len() == old(self).spling.tags + 1,
        ensures
            ({
                let resolved = submitted_tag(old(self).tags@.taglist, tag_name@);
                &&& final(self).tags@.taglist == resolved.0
                &&& final(self).tags@.bump == old(self).tags@.bump
                &&& final(self).post == (Post {
                    ts: now,
                    uid,
                    pid: (old(self).spling.posts + 1) as u32,
                    gid: group_id,
                    tid: resolved.1 as u16,
                    st: 1,
                    bump: post_bump,
                })
                &&& final(self).likes@ == (LikesView {
                    counter: 0,
                    users: Seq::empty(),
                    bump: likes_bump,
                })
                &&& final(self).spling == (Spling {
                    posts: (old(self).spling.posts + 1) as u32,
                    tags: (old(self).spling.tags + resolved.0.len() - old(
                        self,
                    ).tags@.taglist.len()) as u16,
                    ..old(self).spling
                })
                &&& r.0 == old(self).spling.posts + 1
                &&& r.1 == spec_tip_plan(amount)
            }),
    {
        self.post.ts = now;
        self.post.uid = uid;
        self.post.gid = group_id;
        let pid = self.spling.posts + 1;
        self.post.pid = pid;
        self.spling.posts = pid;
        self.post.tid = 0;

        if !tag_name.as_str().is_empty() {
            let norm = lowercase(tag_name);
            match find_tag(&self.tags.taglist, &norm) {
                Some(i) => {
                    self.post.tid = i as u16;
                },
                None => {
                    proof {
                        assert(self.tags.taglist@.push(norm).map_values(|s: String| s@)
                            =~= self.tags.taglist@.map_values(|s: String| s@).push(norm@));
                    }
                    self.tags.taglist.push(norm);
                    let tid = self.spling.tags + 1;
                    self.post.tid = tid;
                    self.spling.tags = tid;
                },
            }
        }

        self.likes.counter = 0;
        self.likes.users = Vec::new();
        self.post.st = 1;
        self.likes.bump = likes_bump;
        self.post.bump = post_bump;
        (pid, tip_plan(amount))
    }
}

} // verus!
