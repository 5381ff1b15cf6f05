//! The deployment of the Telegram bot to the host.

use crate::config::Config;
use crate::decimal;
use crate::decimal::i64_text;
use crate::text;
use crate::text::{contains, trim};
use crate::ui::states::DeployStatus;
use vstd::prelude::*;

verus! {

/// What a command on the host came to: whether it succeeded, what it printed to its output, and to
/// its output and its error output together; or the message of the error.
#[derive(Debug, Clone)]
pub struct HostOutput {
    pub success: bool,
    pub stdout: String,
    pub combined: String,
    /// Whether the trimmed output is an IP address.
    pub is_ip: bool,
}

/// A deployment.
#[derive(Debug)]
pub enum Deploy {
    Connect { plan: Plan },
    Pull { plan: Plan },
    Stop { plan: Plan },
    Probe { plan: Plan, tried: usize },
    Run { plan: Plan, ip: String },
    Verify,
    Done { message: String },
    Failed { message: String },
}

/// What is deployed.
#[derive(Debug)]
pub struct Plan {
    pub token: String,
    pub admin_id: i64,
    pub container: String,
    pub image: String,
    /// The address to use where the host does not know its own.
    pub fallback: String,
}

/// What a deployment asks for.
#[derive(Debug, Clone)]
pub enum DeployTask {
    Connect,
    OnHost(String),
}

pub enum DeployTaskV {
    Connect,
    OnHost(Seq<char>),
}

impl View for DeployTask {
    type V = DeployTaskV;

    open spec fn view(&self) -> DeployTaskV {
        match self {
            DeployTask::Connect => DeployTaskV::Connect,
            DeployTask::OnHost(c) => DeployTaskV::OnHost(c@),
        }
    }
}

/// The meaning of a task that may be missing.
pub open spec fn opt_task(t: Option<DeployTask>) -> Option<DeployTaskV> {
    match t {
        Some(x) => Some(x@),
        None => None,
    }
}

/// What came of a task; an error is given by its message.
#[derive(Debug)]
pub enum DeployReply {
    Connected(Result<(), String>),
    Output(Result<HostOutput, String>),
}

/// The reply is of the kind that the task has.
pub open spec fn fits(t: Option<DeployTaskV>, p: DeployReply) -> bool {
    match (t, p) {
        (Some(DeployTaskV::Connect), DeployReply::Connected(_)) => true,
        (Some(DeployTaskV::OnHost(_)), DeployReply::Output(_)) => true,
        _ => false,
    }
}

/// The services that tell a host its address.
pub open spec fn ip_service(i: int) -> Seq<char> {
    if i == 0 {
        "https://ifconfig.me"@
    } else if i == 1 {
        "https://icanhazip.com"@
    } else {
        "https://api.ipify.org"@
    }
}

fn ip_service_at(i: usize) -> (r: &'static str)
    ensures
        r@ == ip_service(i as int),
{
    if i == 0 {
        "https://ifconfig.me"
    } else if i == 1 {
        "https://icanhazip.com"
    } else {
        "https://api.ipify.org"
    }
}

/// The command that starts the bot.
pub open spec fn run_cmd(p: Plan, ip: Seq<char>) -> Seq<char> {
    "docker run -d --name axadmin --restart unless-stopped -v /var/run/docker.sock:/var/run/docker.sock -e TELEGRAM_TOKEN='"@
        + p.token@ + "' -e ADMIN_ID='"@ + decimal::dec_int(p.admin_id as int)
        + "' -e XRAY_CONTAINER='"@ + p.container@ + "' "@ + p.image@
        + " --telegram-bot --local --container '"@ + p.container@ + "' --admin-id "@
        + decimal::dec_int(p.admin_id as int) + " --host '"@ + ip + "' 2>&1"@
}

fn build_run_cmd(p: &Plan, ip: &str) -> (r: String)
    ensures
        r@ == run_cmd(*p, ip@),
{
    let id = i64_text(p.admin_id);
    let mut s =
        "docker run -d --name axadmin --restart unless-stopped -v /var/run/docker.sock:/var/run/docker.sock -e TELEGRAM_TOKEN='".to_owned();
    s.append(&p.token);
    s.append("' -e ADMIN_ID='");
    s.append(&id);
    s.append("' -e XRAY_CONTAINER='");
    s.append(&p.container);
    s.append("' ");
    s.append(&p.image);
    s.append(" --telegram-bot --local --container '");
    s.append(&p.container);
    s.append("' --admin-id ");
    s.append(&id);
    s.append(" --host '");
    s.append(ip);
    s.append("' 2>&1");
    s
}

/// The address that an answer gives, if it gives one.
pub open spec fn ip_in(p: Result<HostOutput, String>) -> Option<Seq<char>> {
    match p {
        Ok(o) => if o.success && text::trimmed(o.stdout@).len() > 0 && o.is_ip {
            Some(text::trimmed(o.stdout@))
        } else {
            None
        },
        Err(_) => None,
    }
}

/// The address to use where the host does not know its own: where it was connected to, else what is
/// configured.
pub fn fallback_ip(config: &Config, resolved: &Option<String>) -> (r: String)
    ensures
        r@ == (match *resolved {
            Some(h) => h@,
            None => match config.host {
                Some(h) => h@,
                None => match config.ssh_host {
                    Some(h) => h@,
                    None => "UNKNOWN_IP"@,
                },
            },
        }),
{
    match resolved {
        Some(h) => h.clone(),
        None => match &config.host {
            Some(h) => h.clone(),
            None => match &config.ssh_host {
                Some(h) => h.clone(),
                None => "UNKNOWN_IP".to_owned(),
            },
        },
    }
}

impl Deploy {
    /// A state that a deployment can be in.
    pub open spec fn wf(self) -> bool {
        self matches Deploy::Probe { tried, .. } ==> tried < 3
    }

    /// What is asked for; nothing at the end.
    pub open spec fn asks(self) -> Option<DeployTaskV> {
        match self {
            Deploy::Connect { .. } => Some(DeployTaskV::Connect),
            Deploy::Pull { plan } => Some(
                DeployTaskV::OnHost("docker pull "@ + plan.image@ + " 2>&1"@),
            ),
            Deploy::Stop { .. } => Some(
                DeployTaskV::OnHost(
                    "docker stop axadmin 2>/dev/null; docker rm axadmin 2>/dev/null"@,
                ),
            ),
            Deploy::Probe { tried, .. } => Some(
                DeployTaskV::OnHost("curl -sf --max-time 5 "@ + ip_service(tried as int)),
            ),
            Deploy::Run { plan, ip } => Some(DeployTaskV::OnHost(run_cmd(plan, ip@))),
            Deploy::Verify => Some(
                DeployTaskV::OnHost(
                    "docker inspect axadmin --format '{{.State.Status}}' 2>&1"@,
                ),
            ),
            Deploy::Done { .. } => None,
            Deploy::Failed { .. } => None,
        }
    }

    /// The deployment has failed with that message.
    pub open spec fn failed_with(self, m: Seq<char>) -> bool {
        self matches Deploy::Failed { message } && message@ == m
    }

    /// What is told before a deployment begins, also where it then fails for want of an
    /// administrator.
    pub fn announcement() -> (r: DeployStatus)
        ensures
            r@ is Connecting,
    {
        DeployStatus::Connecting
    }

    /// Begins to deploy the bot; it needs an administrator.
    pub fn start(config: &Config, token: &str, fallback: &str) -> (r: Deploy)
        ensures
            r.wf(),
            match config.telegram_admin_chat_id {
                None => r.failed_with("admin_id is required for deploy"@),
                Some(id) => r matches Deploy::Connect { plan } && plan.token@ == token@
                    && plan.admin_id == id && plan.container@ == config.container@ && plan.image@
                    == config.bot_image@ && plan.fallback@ == fallback@,
            },
    {
        match config.telegram_admin_chat_id {
            None => Deploy::Failed { message: "admin_id is required for deploy".to_owned() },
            Some(admin_id) => Deploy::Connect {
                plan: Plan {
                    token: token.to_owned(),
                    admin_id,
                    container: config.container.clone(),
                    image: config.bot_image.clone(),
                    fallback: fallback.to_owned(),
                },
            },
        }
    }

    /// What is asked for.
    pub fn task(&self) -> (r: Option<DeployTask>)
        ensures
            opt_task(r) == self.asks(),
    {
        match self {
            Deploy::Connect { .. } => Some(DeployTask::Connect),
            Deploy::Pull { plan } => {
                let mut s = "docker pull ".to_owned();
                s.append(&plan.image);
                s.append(" 2>&1");
                Some(DeployTask::OnHost(s))
            },
            Deploy::Stop { .. } => Some(
                DeployTask::OnHost(
                    "docker stop axadmin 2>/dev/null; docker rm axadmin 2>/dev/null".to_owned(),
                ),
            ),
            Deploy::Probe { tried, .. } => {
                let mut s = "curl -sf --max-time 5 ".to_owned();
                s.append(ip_service_at(*tried));
                Some(DeployTask::OnHost(s))
            },
            Deploy::Run { plan, ip } => Some(DeployTask::OnHost(build_run_cmd(plan, ip))),
            Deploy::Verify => Some(
                DeployTask::OnHost(
                    "docker inspect axadmin --format '{{.State.Status}}' 2>&1".to_owned(),
                ),
            ),
            Deploy::Done { .. } => None,
            Deploy::Failed { .. } => None,
        }
    }

    /// How far the deployment is, where that is told anew. That it connects was told before it
    /// began.
    pub fn progress(&self) -> (r: Option<DeployStatus>)
        ensures
            match *self {
                Deploy::Pull { .. } => r matches Some(s) && s@ is BuildingImage,
                Deploy::Probe { tried, .. } => if tried == 0 {
                    r matches Some(s) && s@ is StartingBot
                } else {
                    r is None
                },
                Deploy::Verify => r matches Some(s) && s@ is Verifying,
                _ => r is None,
            },
    {
        match self {
            Deploy::Pull { .. } => Some(DeployStatus::BuildingImage),
            Deploy::Probe { tried, .. } => if *tried == 0 {
                Some(DeployStatus::StartingBot)
            } else {
                None
            },
            Deploy::Verify => Some(DeployStatus::Verifying),
            _ => None,
        }
    }

    fn failed(prefix: &str, m: &str) -> (r: Deploy)
        ensures
            r.failed_with(prefix@ + m@),
    {
        let mut s = prefix.to_owned();
        s.append(m);
        Deploy::Failed { message: s }
    }

    /// The next state, after a reply to what was asked for.
    pub fn next(self, reply: DeployReply) -> (r: Deploy)
        requires
            self.wf(),
            fits(self.asks(), reply),
        ensures
            r.wf(),
            match (self, reply) {
                (Deploy::Connect { plan }, DeployReply::Connected(Ok(()))) => r == (Deploy::Pull {
                    plan,
                }),
                (Deploy::Connect { .. }, DeployReply::Connected(Err(e))) => r.failed_with(e@),
                (Deploy::Pull { plan }, DeployReply::Output(Ok(o))) => if o.success {
                    r == (Deploy::Stop { plan })
                } else {
                    r.failed_with("Docker pull failed: "@ + o.combined@)
                },
                (Deploy::Pull { .. }, DeployReply::Output(Err(e))) => r.failed_with(
                    "Docker pull failed: "@ + e@,
                ),
                (Deploy::Stop { plan }, DeployReply::Output(_)) => r == (Deploy::Probe {
                    plan,
                    tried: 0,
                }),
                (Deploy::Probe { plan, tried }, DeployReply::Output(o)) => match ip_in(o) {
                    Some(ip) => r matches Deploy::Run { plan: p, ip: i } && p == plan && i@ == ip,
                    None => if tried < 2 {
                        r == (Deploy::Probe { plan, tried: (tried + 1) as usize })
                    } else {
                        r matches Deploy::Run { plan: p, ip: i } && p == plan && i@
                            == plan.fallback@
                    },
                },
                (Deploy::Run { .. }, DeployReply::Output(Ok(o))) => if o.success {
                    r is Verify
                } else {
                    r.failed_with("Docker start failed: "@ + o.combined@)
                },
                (Deploy::Run { .. }, DeployReply::Output(Err(e))) => r.failed_with(
                    "Docker start failed: "@ + e@,
                ),
                (Deploy::Verify, DeployReply::Output(Ok(o))) => if !o.success {
                    r.failed_with("Verification failed: "@ + o.combined@)
                } else if text::has(text::trimmed(o.stdout@), "Up"@) || text::has(
                    text::trimmed(o.stdout@),
                    "running"@,
                ) {
                    r matches Deploy::Done { message } && message@
                        == "Bot deployed and running! Send /start to your bot."@
                } else {
                    r.failed_with(
                        "Bot container not running. Status: "@ + text::trimmed(o.stdout@),
                    )
                },
                (Deploy::Verify, DeployReply::Output(Err(e))) => r.failed_with(
                    "Verification failed: "@ + e@,
                ),
                _ => true,
            },
    {
        match (self, reply) {
            (Deploy::Connect { plan }, DeployReply::Connected(Ok(()))) => Deploy::Pull { plan },
            (Deploy::Connect { .. }, DeployReply::Connected(Err(e))) => Deploy::Failed {
                message: e,
            },
            (Deploy::Pull { plan }, DeployReply::Output(Ok(o))) => {
                if o.success {
                    Deploy::Stop { plan }
                } else {
                    Deploy::failed("Docker pull failed: ", &o.combined)
                }
            },
            (Deploy::Pull { .. }, DeployReply::Output(Err(e))) => {
                Deploy::failed("Docker pull failed: ", &e)
            },
            (Deploy::Stop { plan }, DeployReply::Output(_)) => Deploy::Probe { plan, tried: 0 },
            (Deploy::Probe { plan, tried }, DeployReply::Output(o)) => {
                let ip: Option<String> = match o {
                    Ok(x) => {
                        let t = trim(&x.stdout);
                        if x.success && !t.as_str().is_empty() && x.is_ip {
                            Some(t)
                        } else {
                            None
                        }
                    },
                    Err(_) => None,
                };
                match ip {
                    Some(ip) => Deploy::Run { plan, ip },
                    None => if tried < 2 {
                        Deploy::Probe { plan, tried: tried + 1 }
                    } else {
                        let ip = plan.fallback.clone();
                        Deploy::Run { plan, ip }
                    },
                }
            },
            (Deploy::Run { .. }, DeployReply::Output(Ok(o))) => {
                if o.success {
                    Deploy::Verify
                } else {
                    Deploy::failed("Docker start failed: ", &o.combined)
                }
            },
            (Deploy::Run { .. }, DeployReply::Output(Err(e))) => {
                Deploy::failed("Docker start failed: ", &e)
            },
            (Deploy::Verify, DeployReply::Output(Ok(o))) => {
                if !o.success {
                    return Deploy::failed("Verification failed: ", &o.combined);
                }
                let status = trim(&o.stdout);
                if contains(&status, "Up") || contains(&status, "running") {
                    Deploy::Done {
                        message: "Bot deployed and running! Send /start to your bot.".to_owned(),
                    }
                } else {
                    Deploy::failed("Bot container not running. Status: ", &status)
                }
            },
            (Deploy::Verify, DeployReply::Output(Err(e))) => {
                Deploy::failed("Verification failed: ", &e)
            },
            (s, _) => s,
        }
    }
}

/// How many steps are left at most.
pub open spec fn steps_left(s: Deploy) -> int {
    match s {
        Deploy::Connect { .. } => 8,
        Deploy::Pull { .. } => 7,
        Deploy::Stop { .. } => 6,
        Deploy::Probe { tried, .. } => 5 - tried,
        Deploy::Run { .. } => 2,
        Deploy::Verify => 1,
        Deploy::Done { .. } => 0,
        Deploy::Failed { .. } => 0,
    }
}

/// Every deployment ends, and it is done only when the bot was seen to run.
pub proof fn law_deployment_ends(s: Deploy, p: DeployReply, r: Deploy)
    requires
        s.wf(),
        fits(s.asks(), p),
        call_ensures(Deploy::next, (s, p), r),
    ensures
        0 <= steps_left(r) < steps_left(s),
        r is Done ==> s is Verify && (p matches DeployReply::Output(Ok(o)) && o.success),
{
}

/// **The bot is started with what it was planned with**: its token, its administrator, the container
/// that it looks after, the image, and the address of the host.
pub proof fn law_bot_is_started_as_planned(
    config: Config,
    token: &str,
    fallback: &str,
    ip: String,
    a: Deploy,
    plan: Plan,
    t: Option<DeployTask>,
)
    requires
        call_ensures(Deploy::start, (&config, token, fallback), a),
        a matches Deploy::Connect { plan: p } && p == plan,
        call_ensures(Deploy::task, (&Deploy::Run { plan, ip },), t),
    ensures
        config.telegram_admin_chat_id is Some,
        t matches Some(DeployTask::OnHost(c)) && c@
            == "docker run -d --name axadmin --restart unless-stopped -v /var/run/docker.sock:/var/run/docker.sock -e TELEGRAM_TOKEN='"@
            + token@ + "' -e ADMIN_ID='"@ + decimal::dec_int(
            config.telegram_admin_chat_id->0 as int,
        ) + "' -e XRAY_CONTAINER='"@ + config.container@ + "' "@ + config.bot_image@
            + " --telegram-bot --local --container '"@ + config.container@ + "' --admin-id "@
            + decimal::dec_int(config.telegram_admin_chat_id->0 as int) + " --host '"@ + ip@
            + "' 2>&1"@,
{
}

/// **Without an administrator nothing is deployed.**
pub proof fn law_bot_needs_an_administrator(config: Config, token: &str, fallback: &str, a: Deploy)
    requires
        config.telegram_admin_chat_id is None,
        call_ensures(Deploy::start, (&config, token, fallback), a),
    ensures
        a matches Deploy::Failed { message } && message@ == "admin_id is required for deploy"@,
{
}

/// **The image is pulled, the old bot is removed, and only then the new one is started**; the plan
/// stays the same.
pub proof fn law_steps_of_a_deployment(
    plan: Plan,
    o: HostOutput,
    any: Result<HostOutput, String>,
    a: Deploy,
    b: Deploy,
    c: Deploy,
    t1: Option<DeployTask>,
    t2: Option<DeployTask>,
    t3: Option<DeployTask>,
)
    requires
        o.success,
        call_ensures(
            Deploy::next,
            (Deploy::Connect { plan }, DeployReply::Connected(Ok::<(), String>(()))),
            a,
        ),
        call_ensures(Deploy::task, (&a,), t1),
        call_ensures(Deploy::next, (a, DeployReply::Output(Ok::<HostOutput, String>(o))), b),
        call_ensures(Deploy::task, (&b,), t2),
        call_ensures(Deploy::next, (b, DeployReply::Output(any)), c),
        call_ensures(Deploy::task, (&c,), t3),
    ensures
        t1 matches Some(DeployTask::OnHost(s)) && s@ == "docker pull "@ + plan.image@ + " 2>&1"@,
        t2 matches Some(DeployTask::OnHost(s)) && s@
            == "docker stop axadmin 2>/dev/null; docker rm axadmin 2>/dev/null"@,
        t3 matches Some(DeployTask::OnHost(s)) && s@ == "curl -sf --max-time 5 "@
            + "https://ifconfig.me"@,
        c matches Deploy::Probe { plan: p, tried } && p == plan && tried == 0,
{
}

/// **The address is what a service gave, if it is one**; where none of the three gave one, it is the
/// one that was connected to.
pub proof fn law_address_of_the_host(
    plan: Plan,
    tried: usize,
    o: HostOutput,
    e: String,
    a: Deploy,
    b: Deploy,
    t: Option<DeployTask>,
)
    requires
        tried < 3,
        call_ensures(Deploy::task, (&Deploy::Probe { plan, tried },), t),
        call_ensures(
            Deploy::next,
            (Deploy::Probe { plan, tried }, DeployReply::Output(Ok::<HostOutput, String>(o))),
            a,
        ),
        call_ensures(
            Deploy::next,
            (Deploy::Probe { plan, tried }, DeployReply::Output(Err::<HostOutput, String>(e))),
            b,
        ),
    ensures
        t matches Some(DeployTask::OnHost(s)) && s@ == "curl -sf --max-time 5 "@ + (if tried == 0 {
            "https://ifconfig.me"@
        } else if tried == 1 {
            "https://icanhazip.com"@
        } else {
            "https://api.ipify.org"@
        }),
        o.success && o.is_ip && text::trimmed(o.stdout@).len() > 0 ==> (a matches Deploy::Run {
            plan: p,
            ip,
        } && p == plan && ip@ == text::trimmed(o.stdout@)),
        !o.success || !o.is_ip || text::trimmed(o.stdout@).len() == 0 ==> a == b || (a is Run && b
            is Run),
        tried < 2 ==> (b matches Deploy::Probe { plan: p, tried: n } && p == plan && n == tried
            + 1),
        tried == 2 ==> (b matches Deploy::Run { plan: p, ip } && p == plan && ip@
            == plan.fallback@),
        tried == 2 && (!o.success || !o.is_ip) ==> (a matches Deploy::Run { plan: p, ip } && ip@
            == plan.fallback@),
{
}

/// **A deployment is done only where the container runs**; what failed is told with what the command
/// printed.
pub proof fn law_deployment_is_verified(
    plan: Plan,
    ip: String,
    o: HostOutput,
    pull: Deploy,
    run: Deploy,
    verify: Deploy,
    t: Option<DeployTask>,
)
    requires
        call_ensures(
            Deploy::next,
            (Deploy::Pull { plan }, DeployReply::Output(Ok::<HostOutput, String>(o))),
            pull,
        ),
        call_ensures(
            Deploy::next,
            (Deploy::Run { plan, ip }, DeployReply::Output(Ok::<HostOutput, String>(o))),
            run,
        ),
        call_ensures(
            Deploy::next,
            (Deploy::Verify, DeployReply::Output(Ok::<HostOutput, String>(o))),
            verify,
        ),
        call_ensures(Deploy::task, (&Deploy::Verify,), t),
    ensures
        t matches Some(DeployTask::OnHost(s)) && s@
            == "docker inspect axadmin --format '{{.State.Status}}' 2>&1"@,
        !o.success ==> {
            &&& pull matches Deploy::Failed { message } && message@ == "Docker pull failed: "@
                + o.combined@
            &&& run matches Deploy::Failed { message } && message@ == "Docker start failed: "@
                + o.combined@
            &&& verify matches Deploy::Failed { message } && message@ == "Verification failed: "@
                + o.combined@
        },
        o.success ==> run is Verify && pull == (Deploy::Stop { plan }),
        o.success && text::trimmed(o.stdout@) == "running"@ ==> (verify matches Deploy::Done {
            message,
        } && message@ == "Bot deployed and running! Send /start to your bot."@),
        o.success && text::trimmed(o.stdout@) == "exited"@ ==> (verify matches Deploy::Failed {
            message,
        } && message@ == "Bot container not running. Status: "@ + "exited"@),
{
    reveal_strlit("running");
    reveal_strlit("exited");
    reveal_strlit("Up");
    let r = "running"@;
    let x = "exited"@;
    text::lemma_find_from(r, r, 0);
    assert(r.subrange(0, r.len() as int) =~= r);
    assert(text::matches_at(r, r, 0));
    text::lemma_find_from(x, "Up"@, 0);
    text::lemma_find_from(x, "running"@, 0);
    if let Some(k) = text::find_from(x, "Up"@, 0) {
        assert(x.subrange(k, k + 2)[0] == x[k]);
        assert(x[k] == 'U');
    }
}

/// **The address at hand is where the host was reached**, else the configured host, else the alias.
pub proof fn law_address_at_hand(
    config: Config,
    h: String,
    a: String,
    b: String,
)
    requires
        call_ensures(fallback_ip, (&config, &Some(h)), a),
        call_ensures(fallback_ip, (&config, &Option::<String>::None), b),
    ensures
        a@ == h@,
        config.host matches Some(x) ==> b@ == x@,
        config.host is None ==> (config.ssh_host matches Some(x) ==> b@ == x@),
        config.host is None && config.ssh_host is None ==> b@ == "UNKNOWN_IP"@,
{
}

/// **How far a deployment is, is told once for each stage.**
pub proof fn law_progress_is_told(
    plan: Plan,
    ip: String,
    tried: usize,
    first: DeployStatus,
    pull: Option<DeployStatus>,
    probe: Option<DeployStatus>,
    run: Option<DeployStatus>,
    verify: Option<DeployStatus>,
)
    requires
        call_ensures(Deploy::announcement, (), first),
        call_ensures(Deploy::progress, (&Deploy::Pull { plan },), pull),
        call_ensures(Deploy::progress, (&Deploy::Probe { plan, tried },), probe),
        call_ensures(Deploy::progress, (&Deploy::Run { plan, ip },), run),
        call_ensures(Deploy::progress, (&Deploy::Verify,), verify),
    ensures
        first is Connecting,
        pull matches Some(s) && s is BuildingImage,
        tried == 0 ==> (probe matches Some(s) && s is StartingBot),
        tried > 0 ==> probe is None,
        run is None,
        verify matches Some(s) && s is Verifying,
{
}

} // verus!
