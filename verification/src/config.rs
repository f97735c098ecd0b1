//! The configuration of a fleet run: the target hosts and the four command
//! groups that every host is sent.

use vstd::prelude::*;

verus! {

/// One target host: where to reach it and how to log in.
#[derive(Debug, PartialEq, Eq)]
pub struct Host {
    pub name: String,
    pub address: String,
    pub port: u16,
    pub user: String,
    pub password: String,
    pub key_path: Option<String>,
}

/// The mathematical value of a [`Host`].
pub struct HostView {
    pub name: Seq<char>,
    pub address: Seq<char>,
    pub port: u16,
    pub user: Seq<char>,
    pub password: Seq<char>,
    pub key_path: Option<Seq<char>>,
}

impl View for Host {
    type V = HostView;

    open spec fn view(&self) -> HostView {
        HostView {
            name: self.name@,
            address: self.address@,
            port: self.port,
            user: self.user@,
            password: self.password@,
            key_path: match self.key_path {
                Some(p) => Some(p@),
                None => None,
            },
        }
    }
}

impl DeepView for Host {
    type V = HostView;

    open spec fn deep_view(&self) -> HostView {
        self@
    }
}

impl HostView {
    /// A host logs in with a key exactly when it names a non-empty key path.
    pub open spec fn uses_key(self) -> bool {
        self.key_path matches Some(p) && p.len() > 0
    }
}

impl Clone for Host {
    fn clone(&self) -> (r: Self)
        ensures
            r@ == self@,
    {
        Host {
            name: self.name.clone(),
            address: self.address.clone(),
            port: self.port,
            user: self.user.clone(),
            password: self.password.clone(),
            key_path: match &self.key_path {
                Some(p) => Some(p.clone()),
                None => None,
            },
        }
    }
}

impl Host {
    /// Whether this host logs in with a private key rather than its password.
    pub fn uses_key(&self) -> (r: bool)
        ensures
            r == self@.uses_key(),
    {
        match &self.key_path {
            Some(p) => !p.as_str().is_empty(),
            None => false,
        }
    }
}

/// A copy of the words, in their order.
pub fn clone_words(words: &Vec<String>) -> (copy: Vec<String>)
    ensures
        copy.deep_view() == words.deep_view(),
{
    let mut copy: Vec<String> = Vec::new();
    let mut i: usize = 0;
    while i < words.len()
        invariant
            i <= words.len(),
            copy.deep_view() =~= words.deep_view().take(i as int),
        decreases words.len() - i,
    {
        let ghost before = copy.deep_view();
        copy.push(words[i].clone());
        proof {
            assert(copy.deep_view() =~= before.push(words[i as int]@));
        }
        i += 1;
    }
    proof {
        assert(words.deep_view().take(i as int) =~= words.deep_view());
    }
    copy
}

/// A copy of the hosts, in their order.
pub fn clone_hosts(hosts: &Vec<Host>) -> (copy: Vec<Host>)
    ensures
        copy.deep_view() == hosts.deep_view(),
{
    let mut copy: Vec<Host> = Vec::new();
    let mut i: usize = 0;
    while i < hosts.len()
        invariant
            i <= hosts.len(),
            copy.deep_view() =~= hosts.deep_view().take(i as int),
        decreases hosts.len() - i,
    {
        let ghost before = copy.deep_view();
        copy.push(hosts[i].clone());
        proof {
            assert(copy.deep_view() =~= before.push(hosts[i as int]@));
        }
        i += 1;
    }
    proof {
        assert(hosts.deep_view().take(i as int) =~= hosts.deep_view());
    }
    copy
}

/// The packages that every host gets installed.
#[derive(Debug, PartialEq, Eq)]
pub struct Packages {
    pub global: Vec<String>,
}

/// The user accounts that every host gets.
#[derive(Debug, PartialEq, Eq)]
pub struct Users {
    pub global: Vec<String>,
}

/// The services that are enabled, and those that are restarted, on every host.
#[derive(Debug, PartialEq, Eq)]
pub struct Services {
    pub enable: Vec<String>,
    pub restart: Vec<String>,
}

/// The repositories that are cloned onto every host.
#[derive(Debug, PartialEq, Eq)]
pub struct Repositories {
    pub global: Vec<String>,
}

/// A whole fleet run: the hosts, and the four command groups they share.
#[derive(Debug, PartialEq, Eq)]
pub struct Config {
    pub hosts: Vec<Host>,
    pub packages: Packages,
    pub users: Users,
    pub services: Services,
    pub repositories: Repositories,
}

/// The mathematical value of a [`Config`].
pub struct ConfigView {
    pub hosts: Seq<HostView>,
    pub packages: Seq<Seq<char>>,
    pub users: Seq<Seq<char>>,
    pub enable: Seq<Seq<char>>,
    pub restart: Seq<Seq<char>>,
    pub repositories: Seq<Seq<char>>,
}

impl View for Config {
    type V = ConfigView;

    open spec fn view(&self) -> ConfigView {
        ConfigView {
            hosts: self.hosts.deep_view(),
            packages: self.packages.global.deep_view(),
            users: self.users.global.deep_view(),
            enable: self.services.enable.deep_view(),
            restart: self.services.restart.deep_view(),
            repositories: self.repositories.global.deep_view(),
        }
    }
}

impl Clone for Packages {
    fn clone(&self) -> (r: Self)
        ensures
            r.global.deep_view() == self.global.deep_view(),
    {
        Packages { global: clone_words(&self.global) }
    }
}

impl Clone for Users {
    fn clone(&self) -> (r: Self)
        ensures
            r.global.deep_view() == self.global.deep_view(),
    {
        Users { global: clone_words(&self.global) }
    }
}

impl Clone for Services {
    fn clone(&self) -> (r: Self)
        ensures
            r.enable.deep_view() == self.enable.deep_view(),
            r.restart.deep_view() == self.restart.deep_view(),
    {
        Services { enable: clone_words(&self.enable), restart: clone_words(&self.restart) }
    }
}

impl Clone for Repositories {
    fn clone(&self) -> (r: Self)
        ensures
            r.global.deep_view() == self.global.deep_view(),
    {
        Repositories { global: clone_words(&self.global) }
    }
}

impl Clone for Config {
    fn clone(&self) -> (r: Self)
        ensures
            r@ == self@,
    {
        Config {
            hosts: clone_hosts(&self.hosts),
            packages: self.packages.clone(),
            users: self.users.clone(),
            services: self.services.clone(),
            repositories: self.repositories.clone(),
        }
    }
}

} // verus!
