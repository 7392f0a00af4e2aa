use vstd::prelude::*;
use crate::text::{lowercase, str_eq, to_lowercase};

verus! {

/// The secret that a client authenticates with.
#[derive(Debug, Clone)]
pub struct AuthSecret {
    pub token: String,
}

impl AuthSecret {
    pub fn new(token: &str) -> (res: Self)
        ensures
            res.token@ == token@,
    {
        AuthSecret { token: token.to_owned() }
    }

    /// Returns the secret.
    pub fn token(&self) -> (res: &str)
        ensures
            res@ == self.token@,
    {
        self.token.as_str()
    }
}

/// The path of the SSH keys that a client authenticates against.
#[derive(Debug, Clone)]
pub struct AuthSshPath {
    pub path: String,
}

impl AuthSshPath {
    pub fn new(path: &str) -> (res: Self)
        ensures
            res.path@ == path@,
    {
        AuthSshPath { path: path.to_owned() }
    }

    /// Returns the path.
    pub fn path(&self) -> (res: &str)
        ensures
            res@ == self.path@,
    {
        self.path.as_str()
    }
}

/// The configuration node of the authentication: its key, the text of its
/// value, and the texts of its 'pass' and 'path' entries, where present.
#[derive(Debug, Clone)]
pub struct AuthConf {
    pub key: String,
    pub value: Option<String>,
    pub pass: Option<String>,
    pub path: Option<String>,
}

/// Jds-protocol specific kind of authorization on the TcpServer.
#[derive(Debug, Clone)]
pub enum TcpServerAuth {
    NoAuth,
    Secret(AuthSecret),
    Ssh(AuthSshPath),
}

/// The configuration names a known kind of authentication with what it
/// needs: key "auth" with value "none" or "None", key "auth-secret" with a
/// 'pass', or key "auth-ssh" with a 'path' (keys in any letter case).
pub open spec fn auth_conf_valid(key: Seq<char>, conf: AuthConf) -> bool {
    if key == "auth"@ {
        conf.value matches Some(v) && (v@ == "none"@ || v@ == "None"@)
    } else if key == "auth-secret"@ {
        conf.pass is Some
    } else if key == "auth-ssh"@ {
        conf.path is Some
    } else {
        false
    }
}

/// `res` is the authentication that the configuration names.
pub open spec fn auth_of_conf(key: Seq<char>, conf: AuthConf, res: TcpServerAuth) -> bool {
    if key == "auth"@ {
        res is NoAuth
    } else if key == "auth-secret"@ {
        res matches TcpServerAuth::Secret(s) && s.token@ == conf.pass.unwrap()@
    } else {
        res matches TcpServerAuth::Ssh(p) && p.path@ == conf.path.unwrap()@
    }
}

impl TcpServerAuth {
    /// Returns the authentication that the configuration names, or `None`
    /// for an unknown key, value, or a missing entry.
    pub fn parse(value: &AuthConf) -> (res: Option<TcpServerAuth>)
        ensures
            res is Some <==> auth_conf_valid(lowercase(value.key@), *value),
            res matches Some(a) ==> auth_of_conf(lowercase(value.key@), *value, a),
    {
        let key = to_lowercase(value.key.as_str());
        if str_eq(key.as_str(), "auth") {
            match &value.value {
                Some(v) => {
                    if str_eq(v.as_str(), "none") || str_eq(v.as_str(), "None") {
                        Some(Self::new(value))
                    } else {
                        None
                    }
                }
                None => None,
            }
        } else if str_eq(key.as_str(), "auth-secret") {
            match &value.pass {
                Some(_) => Some(Self::new(value)),
                None => None,
            }
        } else if str_eq(key.as_str(), "auth-ssh") {
            match &value.path {
                Some(_) => Some(Self::new(value)),
                None => None,
            }
        } else {
            None
        }
    }

    /// Returns the authentication that the configuration names; the
    /// configuration must name a known kind with what it needs.
    pub fn new(value: &AuthConf) -> (res: Self)
        requires
            auth_conf_valid(lowercase(value.key@), *value),
        ensures
            auth_of_conf(lowercase(value.key@), *value, res),
    {
        let key = to_lowercase(value.key.as_str());
        if str_eq(key.as_str(), "auth") {
            TcpServerAuth::NoAuth
        } else if str_eq(key.as_str(), "auth-secret") {
            match &value.pass {
                Some(token) => TcpServerAuth::Secret(AuthSecret::new(token.as_str())),
                None => TcpServerAuth::NoAuth,
            }
        } else {
            match &value.path {
                Some(path) => TcpServerAuth::Ssh(AuthSshPath::new(path.as_str())),
                None => TcpServerAuth::NoAuth,
            }
        }
    }
}

/// What an authentication configuration gives, whatever else it holds:
/// the key "auth" (in any letter case) with the value "none" or "None" is
/// valid and gives no authentication; "auth-secret" with a 'pass' gives a
/// secret of that token; "auth-ssh" with a 'path' gives SSH keys at that
/// path; any other key is refused.
pub proof fn law_auth_conf(conf: AuthConf)
    ensures
        lowercase(conf.key@) == "auth"@ && (conf.value matches Some(v) && (v@ == "none"@ || v@ == "None"@)) ==>
            auth_conf_valid(lowercase(conf.key@), conf)
            && forall|a: TcpServerAuth| #[trigger] auth_of_conf(lowercase(conf.key@), conf, a) <==> a is NoAuth,
        lowercase(conf.key@) == "auth-secret"@ && conf.pass is Some ==>
            auth_conf_valid(lowercase(conf.key@), conf)
            && forall|a: TcpServerAuth| #[trigger] auth_of_conf(lowercase(conf.key@), conf, a)
                <==> (a matches TcpServerAuth::Secret(s) && s.token@ == conf.pass.unwrap()@),
        lowercase(conf.key@) == "auth-ssh"@ && conf.path is Some ==>
            auth_conf_valid(lowercase(conf.key@), conf)
            && forall|a: TcpServerAuth| #[trigger] auth_of_conf(lowercase(conf.key@), conf, a)
                <==> (a matches TcpServerAuth::Ssh(p) && p.path@ == conf.path.unwrap()@),
        lowercase(conf.key@) != "auth"@ && lowercase(conf.key@) != "auth-secret"@ && lowercase(conf.key@) != "auth-ssh"@ ==>
            !auth_conf_valid(lowercase(conf.key@), conf),
{
    reveal_strlit("auth");
    reveal_strlit("auth-secret");
    reveal_strlit("auth-ssh");
    assert("auth-secret"@.len() != "auth"@.len());
    assert("auth-ssh"@.len() != "auth"@.len());
    assert("auth-ssh"@.len() != "auth-secret"@.len());
    let k = lowercase(conf.key@);
    if k == "auth-secret"@ && conf.pass is Some {
        assert(k != "auth"@);
        assert forall|a: TcpServerAuth| #[trigger] auth_of_conf(k, conf, a)
            <==> (a matches TcpServerAuth::Secret(s) && s.token@ == conf.pass.unwrap()@) by {}
    }
    if k == "auth-ssh"@ && conf.path is Some {
        assert(k != "auth"@);
        assert(k != "auth-secret"@);
        assert forall|a: TcpServerAuth| #[trigger] auth_of_conf(k, conf, a)
            <==> (a matches TcpServerAuth::Ssh(p) && p.path@ == conf.path.unwrap()@) by {}
    }
}

} // verus!
