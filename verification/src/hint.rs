//! The mount hint attached to a lexical group of routes, and the validation
//! of the literal forms in which a group declares one.

use vstd::prelude::*;

verus! {

/// The one error this subsystem can raise: a hint declaration used an
/// enabled token that is neither of the two boolean spellings. The offending
/// token is carried verbatim so the declaration site can be reported.
#[derive(Debug, PartialEq, Eq)]
pub enum ConfigError {
    InvalidHintValue(String),
}

/// What an enabled token means: `Some` for the two canonical boolean
/// spellings, `None` for anything else.
pub open spec fn spec_flag(t: Seq<char>) -> Option<bool> {
    if t == "true"@ {
        Some(true)
    } else if t == "false"@ {
        Some(false)
    } else {
        None
    }
}

/// Reads an enabled token.
fn flag_of(token: &str) -> (r: Option<bool>)
    ensures
        r == spec_flag(token@),
{
    let t = token.to_owned();
    let tru = "true".to_owned();
    let fal = "false".to_owned();
    if t == tru {
        Some(true)
    } else if t == fal {
        Some(false)
    } else {
        None
    }
}

/// A mount hint: the base path under which the routes of one module should be
/// installed, and whether they should be installed at all. A hint is built
/// once, when the module's routes are declared, and never changes afterwards.
#[derive(Debug, PartialEq, Eq)]
pub struct AutoMountHint {
    /// Base path the routes of the group default to. Kept verbatim: no
    /// normalization of trailing slashes or case happens anywhere.
    pub mount_point: String,
    /// Whether automatic mounting is wanted for the group at all.
    pub enabled: bool,
}

impl Clone for AutoMountHint {
    fn clone(&self) -> (r: Self)
        ensures
            r == *self,
    {
        AutoMountHint { mount_point: self.mount_point.clone(), enabled: self.enabled }
    }
}

impl Default for AutoMountHint {
    /// The hint a route group gets when it declares none: everything mounted
    /// at the root, enabled.
    fn default() -> (r: Self)
        ensures
            r.mount_point@ == "/"@,
            r.enabled,
    {
        AutoMountHint { mount_point: "/".to_owned(), enabled: true }
    }
}

impl AutoMountHint {
    /// The path-only declaration form: mount the group's routes at `path`,
    /// enabled.
    pub fn from_path(path: &str) -> (r: Self)
        ensures
            r.mount_point@ == path@,
            r.enabled,
    {
        AutoMountHint { mount_point: path.to_owned(), enabled: true }
    }

    /// The explicit declaration form: mount the group's routes at `path`,
    /// with the enabled flag given as a token. A token that is not a boolean
    /// spelling is rejected, naming the token.
    pub fn from_path_and_token(path: &str, token: &str) -> (r: Result<Self, ConfigError>)
        ensures
            match r {
                Ok(h) => spec_flag(token@) == Some(h.enabled) && h.mount_point@ == path@,
                Err(ConfigError::InvalidHintValue(t)) => spec_flag(token@) is None && t@
                    == token@,
            },
    {
        match flag_of(token) {
            Some(b) => Ok(AutoMountHint { mount_point: path.to_owned(), enabled: b }),
            None => Err(ConfigError::InvalidHintValue(token.to_owned())),
        }
    }

    /// The flag-only declaration form: the default path `"/"`, with the
    /// enabled flag given as a token.
    pub fn from_token(token: &str) -> (r: Result<Self, ConfigError>)
        ensures
            match r {
                Ok(h) => spec_flag(token@) == Some(h.enabled) && h.mount_point@ == "/"@,
                Err(ConfigError::InvalidHintValue(t)) => spec_flag(token@) is None && t@
                    == token@,
            },
    {
        match flag_of(token) {
            Some(b) => Ok(AutoMountHint { mount_point: "/".to_owned(), enabled: b }),
            None => Err(ConfigError::InvalidHintValue(token.to_owned())),
        }
    }
}

/// One argument token of a hint declaration, as the front end hands it over:
/// a string literal with its quotes still around it, or a bare identifier.
#[derive(Debug, PartialEq, Eq)]
pub enum HintToken {
    Literal(String),
    Ident(String),
}

/// A string literal token: at least the two surrounding quotes.
pub open spec fn is_quoted(s: Seq<char>) -> bool {
    s.len() >= 2 && s[0] == '"' && s[s.len() - 1] == '"'
}

/// The text of a string literal token with the surrounding quotes removed.
pub open spec fn unquoted(s: Seq<char>) -> Seq<char> {
    s.subrange(1, s.len() - 1)
}

/// The three surface forms of a hint declaration: a path literal alone, a
/// path literal followed by an enabled token, or an enabled token alone.
pub open spec fn is_hint_declaration(s: Seq<HintToken>) -> bool {
    if s.len() == 1 {
        match s[0] {
            HintToken::Literal(l) => is_quoted(l@),
            HintToken::Ident(_) => true,
        }
    } else if s.len() == 2 {
        match (s[0], s[1]) {
            (HintToken::Literal(l), HintToken::Ident(_)) => is_quoted(l@),
            _ => false,
        }
    } else {
        false
    }
}

/// The mount point a declaration names: the unquoted leading literal, or the
/// default path when the declaration has only an enabled token.
pub open spec fn declared_path(s: Seq<HintToken>) -> Seq<char> {
    match s[0] {
        HintToken::Literal(l) => unquoted(l@),
        HintToken::Ident(_) => "/"@,
    }
}

/// The enabled token of a declaration, if it carries one.
pub open spec fn declared_flag_token(s: Seq<HintToken>) -> Option<Seq<char>> {
    if s.len() == 2 {
        match s[1] {
            HintToken::Ident(t) => Some(t@),
            _ => None,
        }
    } else {
        match s[0] {
            HintToken::Ident(t) => Some(t@),
            _ => None,
        }
    }
}

/// One character of a mount point as it stands inside a quoted literal:
/// a quote or a backslash gets a backslash put before it.
pub open spec fn escaped_char(c: char) -> Seq<char> {
    if c == '"' {
        seq!['\\', '"']
    } else if c == '\\' {
        seq!['\\', '\\']
    } else {
        seq![c]
    }
}

/// A mount point as it stands inside a quoted literal.
pub open spec fn escaped(s: Seq<char>) -> Seq<char>
    decreases s.len(),
{
    if s.len() == 0 {
        Seq::empty()
    } else {
        escaped(s.drop_last()) + escaped_char(s.last())
    }
}

/// The field-initializer text a parsed configuration expands to: the mount
/// point re-quoted and re-escaped, and the enabled flag spelled out.
pub open spec fn expanded(mount_point: Seq<char>, enabled: bool) -> Seq<char> {
    "mount_point: \""@ + escaped(mount_point) + "\", enabled: "@ + (if enabled {
        "true"@
    } else {
        "false"@
    })
}

/// The parsed form of a hint declaration, on its way to becoming an
/// [`AutoMountHint`].
#[derive(Debug, PartialEq, Eq)]
pub struct AutoMountConfig {
    pub mount_point: String,
    pub enabled: bool,
}

impl AutoMountConfig {
    /// Reads the enabled token into the configuration, rejecting a token
    /// that is not a boolean spelling and leaving the configuration as it
    /// was in that case.
    pub fn set_enabled(&mut self, token: &str) -> (r: Result<(), ConfigError>)
        ensures
            final(self).mount_point == old(self).mount_point,
            match r {
                Ok(_) => spec_flag(token@) == Some(final(self).enabled),
                Err(ConfigError::InvalidHintValue(t)) => spec_flag(token@) is None && t@
                    == token@ && final(self).enabled == old(self).enabled,
            },
    {
        match flag_of(token) {
            Some(b) => {
                self.enabled = b;
                Ok(())
            }
            None => Err(ConfigError::InvalidHintValue(token.to_owned())),
        }
    }

    /// Parses one hint declaration. The mount point is the leading literal
    /// with its quotes stripped — taken verbatim beyond that, valid path
    /// syntax or not — and defaults to `"/"`; the enabled flag defaults to
    /// true and otherwise comes from the trailing token, whose spelling must
    /// be boolean or the declaration is rejected with the token named.
    pub fn parse(tokens: &Vec<HintToken>) -> (r: Result<AutoMountConfig, ConfigError>)
        requires
            is_hint_declaration(tokens@),
        ensures
            match r {
                Ok(c) => {
                    &&& c.mount_point@ == declared_path(tokens@)
                    &&& match declared_flag_token(tokens@) {
                        Some(t) => spec_flag(t) == Some(c.enabled),
                        None => c.enabled == true,
                    }
                },
                Err(ConfigError::InvalidHintValue(t)) => declared_flag_token(tokens@) == Some(
                    t@,
                ) && spec_flag(t@) is None,
            },
    {
        let mut config = AutoMountConfig { mount_point: "/".to_owned(), enabled: true };
        match &tokens[0] {
            HintToken::Literal(lit) => {
                let n = lit.as_str().unicode_len();
                config.mount_point = lit.as_str().substring_char(1, n - 1).to_owned();
            }
            HintToken::Ident(_) => {}
        }
        let flag: Option<&String> = if tokens.len() == 2 {
            match &tokens[1] {
                HintToken::Ident(t) => Some(t),
                _ => None,
            }
        } else {
            match &tokens[0] {
                HintToken::Ident(t) => Some(t),
                _ => None,
            }
        };
        match flag {
            Some(t) => match config.set_enabled(t.as_str()) {
                Ok(_) => Ok(config),
                Err(e) => Err(e),
            },
            None => Ok(config),
        }
    }

    /// Renders the configuration as the field-initializer text of a hint,
    /// the form in which the front end writes it back into the declaring
    /// module.
    pub fn expand(&self) -> (r: String)
        ensures
            r@ == expanded(self.mount_point@, self.enabled),
    {
        let mut r = "mount_point: \"".to_owned();
        let s = self.mount_point.as_str();
        let n = s.unicode_len();
        proof {
            assert(s@.take(0) =~= Seq::<char>::empty());
            assert("mount_point: \""@ + escaped(s@.take(0)) =~= "mount_point: \""@);
        }
        let mut i: usize = 0;
        while i < n
            invariant
                i <= n,
                n == s@.len(),
                s@ == self.mount_point@,
                r@ == "mount_point: \""@ + escaped(s@.take(i as int)),
            decreases n - i,
        {
            let c = s.get_char(i);
            if c == '"' {
                r.append("\\\"");
            } else if c == '\\' {
                r.append("\\\\");
            } else {
                r.append(s.substring_char(i, i + 1));
            }
            proof {
                reveal_strlit("\\\"");
                reveal_strlit("\\\\");
                assert(s@.subrange(i as int, i + 1 as int) =~= seq![s@[i as int]]);
                assert(s@.take(i + 1 as int).drop_last() =~= s@.take(i as int));
                assert(escaped(s@.take(i + 1 as int)) == escaped(s@.take(i as int))
                    + escaped_char(s@[i as int]));
            }
            i = i + 1;
        }
        proof {
            assert(s@.take(n as int) =~= s@);
        }
        r.append("\", enabled: ");
        if self.enabled {
            r.append("true");
        } else {
            r.append("false");
        }
        r
    }

    /// The hint this configuration declares.
    pub fn to_hint(&self) -> (r: AutoMountHint)
        ensures
            r.mount_point == self.mount_point,
            r.enabled == self.enabled,
    {
        AutoMountHint { mount_point: self.mount_point.clone(), enabled: self.enabled }
    }
}

} // verus!
