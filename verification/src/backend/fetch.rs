//! Background work for the screens: fetching the dashboard, and adding a user.

use crate::backend::{enriched, AddedUser, DashboardData};
use crate::error::AppError;
use crate::text;
use crate::work;
use crate::work::{emails_of, Got, Need, NeedV};
use crate::xray::client::ServerInfo;
use crate::xray::table;
use crate::xray::types::{TrafficStats, UserV, XrayUser};
use vstd::prelude::*;

verus! {

// ---- the dashboard ----

/// How far a fetch of the dashboard is.
#[derive(Debug)]
pub enum Fetch {
    /// The API is enabled, where that was not done before.
    Api { fetch_version: bool },
    Users { fetch_version: bool },
    Info { fetch_version: bool, users: Vec<XrayUser> },
    Traffic { fetch_version: bool, users: Vec<XrayUser>, info: ServerInfo },
    Uptime { fetch_version: bool, users: Vec<XrayUser>, info: ServerInfo },
    Latest { users: Vec<XrayUser>, info: ServerInfo, uptime: String },
    Done { result: Result<DashboardData, String> },
}

/// The users with their traffic and their connections, as far as they were to be had.
pub open spec fn enriched_all(
    users: Seq<UserV>,
    t: Seq<(Option<TrafficStats>, Option<u32>)>,
) -> Seq<UserV> {
    Seq::new(
        users.len(),
        |i: int|
            UserV {
                stats: match t[i].0 {
                    Some(s) => s,
                    None => users[i].stats,
                },
                online_count: match t[i].1 {
                    Some(n) => n,
                    None => users[i].online_count,
                },
                ..users[i]
            },
    )
}

fn enrich(users: &Vec<XrayUser>, t: &Vec<(Option<TrafficStats>, Option<u32>)>) -> (r: Vec<XrayUser>)
    requires
        users@.len() == t@.len(),
    ensures
        table::user_views(r@) == enriched_all(table::user_views(users@), t@),
{
    let ghost all = enriched_all(table::user_views(users@), t@);
    let mut r: Vec<XrayUser> = Vec::new();
    let mut i: usize = 0;
    while i < users.len()
        invariant
            users@.len() == t@.len(),
            all == enriched_all(table::user_views(users@), t@),
            i <= users@.len(),
            table::user_views(r@) =~= all.take(i as int),
        decreases users.len() - i,
    {
        let u = enriched(users[i].duplicate(), t[i].0, t[i].1);
        assert(u@ == all[i as int]);
        let ghost before = table::user_views(r@);
        r.push(u);
        assert(table::user_views(r@) =~= before.push(all[i as int]));
        i += 1;
    }
    assert(table::user_views(r@) =~= all);
    r
}

/// The fetch failed with that message.
pub open spec fn fetch_failed(f: Fetch, m: Seq<char>) -> bool {
    f matches Fetch::Done { result } && (result matches Err(e) && e@ == m)
}

/// How a fetch goes on with what it needed. The newest version is asked for only where that is
/// wanted, and what was not asked for is said to be so.
pub open spec fn fetch_after(f: Fetch, got: Got, r: Fetch) -> bool {
    match (f, got) {
        (Fetch::Api { fetch_version }, Got::Yes(_)) => r == (Fetch::Users { fetch_version }),
        (Fetch::Users { fetch_version }, Got::Users(users)) => r == (Fetch::Info {
            fetch_version,
            users,
        }),
        (Fetch::Info { fetch_version, users }, Got::Info(info)) => r == (Fetch::Traffic {
            fetch_version,
            users,
            info,
        }),
        (Fetch::Traffic { fetch_version, users, info }, Got::Traffic(t)) => (r
            matches Fetch::Uptime { fetch_version: v, users: u, info: i } && v == fetch_version && i
            == info && table::user_views(u@) == enriched_all(table::user_views(users@), t@)),
        (Fetch::Uptime { fetch_version, users, info }, Got::Text(uptime)) => if fetch_version {
            r == (Fetch::Latest { users, info, uptime })
        } else {
            r == (Fetch::Done {
                result: Ok(
                    DashboardData {
                        users,
                        server_info: info,
                        container_uptime: uptime,
                        latest_version: None,
                        version_was_fetched: false,
                    },
                ),
            })
        },
        (Fetch::Latest { users, info, uptime }, Got::Maybe(latest)) => r == (Fetch::Done {
            result: Ok(
                DashboardData {
                    users,
                    server_info: info,
                    container_uptime: uptime,
                    latest_version: latest,
                    version_was_fetched: true,
                },
            ),
        }),
        (_, Got::Failed(e)) => fetch_failed(r, e.text()),
        _ => true,
    }
}

impl Fetch {
    /// Begins a fetch. The API is enabled first, unless that was done before.
    pub fn start(api_check_done: bool, fetch_version: bool) -> (r: Fetch)
        ensures
            r == if api_check_done {
                Fetch::Users { fetch_version }
            } else {
                Fetch::Api { fetch_version }
            },
    {
        if api_check_done {
            Fetch::Users { fetch_version }
        } else {
            Fetch::Api { fetch_version }
        }
    }

    /// What the fetch needs next; nothing where it has ended.
    pub open spec fn wants(self) -> Option<NeedV> {
        match self {
            Fetch::Api { .. } => Some(NeedV::EnsureApi),
            Fetch::Users { .. } => Some(NeedV::Users),
            Fetch::Info { .. } => Some(NeedV::ServerInfo),
            Fetch::Traffic { users, .. } => Some(
                NeedV::Traffic(work::emails(table::user_views(users@))),
            ),
            Fetch::Uptime { .. } => Some(NeedV::Uptime),
            Fetch::Latest { .. } => Some(NeedV::Latest),
            Fetch::Done { .. } => None,
        }
    }

    /// What the fetch needs next; nothing where it has ended.
    pub fn need(&self) -> (r: Option<Need>)
        ensures
            work::opt_need(r) == self.wants(),
    {
        match self {
            Fetch::Api { .. } => Some(Need::EnsureApi),
            Fetch::Users { .. } => Some(Need::Users),
            Fetch::Info { .. } => Some(Need::ServerInfo),
            Fetch::Traffic { users, .. } => Some(Need::Traffic(emails_of(users))),
            Fetch::Uptime { .. } => Some(Need::Uptime),
            Fetch::Latest { .. } => Some(Need::Latest),
            Fetch::Done { .. } => None,
        }
    }

    /// Goes on with what the fetch needed.
    pub fn next(self, got: Got) -> (r: Fetch)
        requires
            work::fits(self.wants(), got),
        ensures
            fetch_after(self, got, r),
    {
        match (self, got) {
            (Fetch::Api { fetch_version }, Got::Yes(_)) => Fetch::Users { fetch_version },
            (Fetch::Users { fetch_version }, Got::Users(users)) => Fetch::Info {
                fetch_version,
                users,
            },
            (Fetch::Info { fetch_version, users }, Got::Info(info)) => Fetch::Traffic {
                fetch_version,
                users,
                info,
            },
            (Fetch::Traffic { fetch_version, users, info }, Got::Traffic(t)) => Fetch::Uptime {
                fetch_version,
                users: enrich(&users, &t),
                info,
            },
            (Fetch::Uptime { fetch_version, users, info }, Got::Text(uptime)) => if fetch_version {
                Fetch::Latest { users, info, uptime }
            } else {
                Fetch::Done {
                    result: Ok(
                        DashboardData {
                            users,
                            server_info: info,
                            container_uptime: uptime,
                            latest_version: None,
                            version_was_fetched: false,
                        },
                    ),
                }
            },
            (Fetch::Latest { users, info, uptime }, Got::Maybe(latest)) => Fetch::Done {
                result: Ok(
                    DashboardData {
                        users,
                        server_info: info,
                        container_uptime: uptime,
                        latest_version: latest,
                        version_was_fetched: true,
                    },
                ),
            },
            (f, Got::Failed(e)) => Fetch::Done { result: Err(e.message().to_owned()) },
            (f, _) => f,
        }
    }
}

/// **A fetch ends**, and the newest version is asked for at most once.
pub proof fn law_fetch_ends(f: Fetch, got: Got, r: Fetch)
    requires
        work::fits(f.wants(), got),
        fetch_after(f, got, r),
    ensures
        steps_left(r) < steps_left(f),
        r is Latest ==> f is Uptime && f->Uptime_fetch_version,
{
}

/// How many steps a fetch can still take.
pub open spec fn steps_left(f: Fetch) -> nat {
    match f {
        Fetch::Api { .. } => 6,
        Fetch::Users { .. } => 5,
        Fetch::Info { .. } => 4,
        Fetch::Traffic { .. } => 3,
        Fetch::Uptime { .. } => 2,
        Fetch::Latest { .. } => 1,
        Fetch::Done { .. } => 0,
    }
}

// ---- adding a user ----

/// The user that was added, from its id and its URL. A URL that could not be made is left empty,
/// for the user was added all the same.
pub fn added_user(name: &str, uuid: String, url: Result<String, AppError>) -> (r: AddedUser)
    ensures
        r.name@ == name@,
        r.uuid == uuid,
        match url {
            Ok(u) => r.vless_url == u,
            Err(_) => r.vless_url@ == Seq::<char>::empty(),
        },
{
    AddedUser {
        name: name.to_owned(),
        uuid,
        vless_url: match url {
            Ok(u) => u,
            Err(_) => String::new(),
        },
    }
}

} // verus!
