//! The decisions behind the listing, viewing and deleting endpoints: who
//! may see what, and which status answers a refusal.
use vstd::prelude::*;

use crate::users::{
    dump_user_table, get_user_by_user_id, has_id, has_user_id, record_views, user_is_admin, User,
    UserDirectory, UserView, ADMIN_PERMISSION,
};
use crate::video::{
    delete_video_with_id, get_all_videos as all_videos, get_video_by_id, has_video_id, may_access,
    may_access_video, video_views, Video, VideoCatalog, VideoView,
};

verus! {

/// The status for a request without a signed-in user.
pub const UNAUTHORIZED: u16 = 401;

/// The status for a user who may not do what was asked.
pub const FORBIDDEN: u16 = 403;

/// The status for something that does not exist.
pub const NOT_FOUND: u16 = 404;

/// The status for a request that names something that does not exist.
pub const BAD_REQUEST: u16 = 400;

/// Whether the user with the user id is an administrator.
pub open spec fn is_admin_id(users: Seq<UserView>, user_id: Seq<char>) -> bool {
    exists|i: int|
        0 <= i < users.len() && #[trigger] users[i].user_id == user_id && users[i].permissions.contains(
            ADMIN_PERMISSION,
        )
}

/// The administrator named by the `user_id` cookie: unauthorized without
/// the cookie, forbidden unless it names an administrator.
pub fn admin_gate<'a>(dir: &'a UserDirectory, user_id: Option<&str>) -> (r: Result<&'a User, u16>)
    requires
        dir.wf(),
    ensures
        match user_id {
            None => r == Err::<&User, u16>(UNAUTHORIZED),
            Some(uid) => match r {
                Ok(u) => dir@.contains(u@) && u@.user_id == uid@ && u@.permissions.contains(
                    ADMIN_PERMISSION,
                ),
                Err(s) => s == FORBIDDEN && !is_admin_id(dir@, uid@),
            },
        },
{
    let uid = match user_id {
        Some(u) => u,
        None => {
            return Err(UNAUTHORIZED);
        },
    };
    match get_user_by_user_id(dir, uid) {
        Some(u) => if user_is_admin(u) {
            Ok(u)
        } else {
            proof {
                dir.lemma_user_id_identifies(u@);
            }
            Err(FORBIDDEN)
        },
        None => Err(FORBIDDEN),
    }
}

/// Every user, for an administrator.
pub fn get_all_users<'a>(dir: &'a UserDirectory, user_id: Option<&str>) -> (r: Result<
    &'a Vec<User>,
    u16,
>)
    requires
        dir.wf(),
    ensures
        match user_id {
            None => r == Err::<&Vec<User>, u16>(UNAUTHORIZED),
            Some(uid) => match r {
                Ok(all) => is_admin_id(dir@, uid@) && record_views(all@) == dir@,
                Err(s) => s == FORBIDDEN && !is_admin_id(dir@, uid@),
            },
        },
{
    match admin_gate(dir, user_id) {
        Ok(admin) => {
            proof {
                let uid = user_id->0;
                let i = choose|i: int| 0 <= i < dir@.len() && dir@[i] == admin@;
                assert(dir@[i].user_id == uid@);
            }
            Ok(dump_user_table(dir))
        },
        Err(s) => Err(s),
    }
}

/// The user with a numeric id, for an administrator.
pub fn get_user_by_id<'a>(dir: &'a UserDirectory, user_id: Option<&str>, id: i32) -> (r: Result<
    &'a User,
    u16,
>)
    requires
        dir.wf(),
    ensures
        match user_id {
            None => r == Err::<&User, u16>(UNAUTHORIZED),
            Some(uid) => match r {
                Ok(u) => is_admin_id(dir@, uid@) && dir@.contains(u@) && u@.id == id,
                Err(s) => (s == FORBIDDEN && !is_admin_id(dir@, uid@)) || (s == NOT_FOUND
                    && is_admin_id(dir@, uid@) && !has_id(dir@, id)),
            },
        },
{
    match admin_gate(dir, user_id) {
        Ok(admin) => {
            proof {
                let uid = user_id->0;
                let i = choose|i: int| 0 <= i < dir@.len() && dir@[i] == admin@;
                assert(dir@[i].user_id == uid@);
            }
            match crate::users::get_user_by_id(dir, id) {
                Some(u) => Ok(u),
                None => Err(NOT_FOUND),
            }
        },
        Err(s) => Err(s),
    }
}

/// Every video, for an administrator.
pub fn get_all_videos<'a>(
    dir: &UserDirectory,
    catalog: &'a VideoCatalog,
    user_id: Option<&str>,
) -> (r: Result<&'a Vec<Video>, u16>)
    requires
        dir.wf(),
    ensures
        match user_id {
            None => r == Err::<&Vec<Video>, u16>(UNAUTHORIZED),
            Some(uid) => match r {
                Ok(all) => is_admin_id(dir@, uid@) && video_views(all@) == catalog@,
                Err(s) => s == FORBIDDEN && !is_admin_id(dir@, uid@),
            },
        },
{
    match admin_gate(dir, user_id) {
        Ok(admin) => {
            proof {
                let uid = user_id->0;
                let i = choose|i: int| 0 <= i < dir@.len() && dir@[i] == admin@;
                assert(dir@[i].user_id == uid@);
            }
            Ok(all_videos(catalog))
        },
        Err(s) => Err(s),
    }
}

/// Whether the user with the user id may see the video.
pub open spec fn may_see(users: Seq<UserView>, user_id: Seq<char>, video: VideoView) -> bool {
    exists|i: int| 0 <= i < users.len() && #[trigger] users[i].user_id == user_id && may_access(users[i], video)
}

/// A video, for the user named by the `user_id` cookie: unauthorized
/// without a known user, not found without the video, forbidden unless the
/// user owns it or is an administrator.
pub fn get_video_with_id<'a>(
    dir: &UserDirectory,
    catalog: &'a VideoCatalog,
    user_id: Option<&str>,
    video_id: &str,
) -> (r: Result<&'a Video, u16>)
    requires
        dir.wf(),
        catalog.wf(),
    ensures
        match user_id {
            None => r == Err::<&Video, u16>(UNAUTHORIZED),
            Some(uid) => match r {
                Ok(v) => catalog@.contains(v@) && v@.video_id == video_id@ && may_see(dir@, uid@, v@),
                Err(s) => if !has_user_id(dir@, uid@) {
                    s == UNAUTHORIZED
                } else if !has_video_id(catalog@, video_id@) {
                    s == NOT_FOUND
                } else {
                    s == FORBIDDEN && forall|j: int|
                        0 <= j < catalog@.len() && #[trigger] catalog@[j].video_id == video_id@
                            ==> !may_see(dir@, uid@, catalog@[j])
                },
            },
        },
{
    let uid = match user_id {
        Some(u) => u,
        None => {
            return Err(UNAUTHORIZED);
        },
    };
    let user = match get_user_by_user_id(dir, uid) {
        Some(u) => u,
        None => {
            return Err(UNAUTHORIZED);
        },
    };
    proof {
        dir.lemma_user_id_identifies(user@);
    }
    let video = match get_video_by_id(catalog, video_id) {
        Some(v) => v,
        None => {
            return Err(NOT_FOUND);
        },
    };
    proof {
        catalog.lemma_video_id_identifies(video@);
    }
    if may_access_video(user, video) {
        proof {
            let i = choose|i: int| 0 <= i < dir@.len() && dir@[i] == user@;
            assert(dir@[i].user_id == uid@);
        }
        Ok(video)
    } else {
        Err(FORBIDDEN)
    }
}

/// Deletes a video for a signed-in user: a bad request when there is no
/// such video, unauthorized unless the user owns it or is an administrator.
/// The removed record is returned, so that its file can be removed too.
pub fn delete_video(catalog: &mut VideoCatalog, user: &User, video_id: &str) -> (r: Result<
    Video,
    u16,
>)
    requires
        old(catalog).wf(),
    ensures
        final(catalog).wf(),
        match r {
            Ok(v) => exists|i: int|
                0 <= i < old(catalog)@.len() && #[trigger] old(catalog)@[i] == v@ && v@.video_id
                    == video_id@ && may_access(user@, v@) && final(catalog)@ == old(catalog)@.remove(
                    i,
                ),
            Err(s) => final(catalog)@ == old(catalog)@ && if !has_video_id(old(catalog)@, video_id@) {
                s == BAD_REQUEST
            } else {
                s == UNAUTHORIZED && forall|j: int|
                    0 <= j < old(catalog)@.len() && #[trigger] old(catalog)@[j].video_id
                        == video_id@ ==> !may_access(user@, old(catalog)@[j])
            },
        },
{
    let video = match get_video_by_id(catalog, video_id) {
        Some(v) => crate::video::copy_video(v),
        None => {
            return Err(BAD_REQUEST);
        },
    };
    proof {
        catalog.lemma_video_id_identifies(video@);
    }
    if !may_access_video(user, &video) {
        return Err(UNAUTHORIZED);
    }
    let ghost before = catalog@;
    let removed = delete_video_with_id(catalog, video.id);
    proof {
        let k = choose|k: int| 0 <= k < before.len() && before[k] == video@;
        let i = choose|i: int| 0 <= i < before.len() && #[trigger] before[i].id == video.id
            && catalog@ == before.remove(i);
        if i != k {
            assert(before[i].id != before[k].id);
        }
    }
    Ok(video)
}

} // verus!
