//! The stored credentials, and what is read off them.

use vstd::prelude::*;
use vstd::string::*;
use crate::text::chars_of;

verus! {

/// The credentials of the API: the user name in the form
/// `account/username`, and the key.
#[derive(Debug, Clone, PartialEq, Eq)]
pub struct Config {
    pub api_username: String,
    pub api_key: String,
}

/// The first position at or after `from` where `c` stands in `s`; the
/// length of `s` where it stands nowhere.
pub open spec fn position(s: Seq<char>, c: char, from: int) -> int
    decreases s.len() - from,
{
    if from < 0 || from >= s.len() {
        s.len() as int
    } else if s[from] == c {
        from
    } else {
        position(s, c, from + 1)
    }
}

/// What stands before the first slash of `api_username`; all of it where
/// it holds no slash.
pub open spec fn account_of(api_username: Seq<char>) -> Seq<char> {
    api_username.subrange(0, position(api_username, '/', 0))
}

/// What stands between the first slash of `api_username` and the second,
/// or the end; all of `api_username` where it holds no slash.
pub open spec fn username_of(api_username: Seq<char>) -> Seq<char> {
    let first = position(api_username, '/', 0);
    if first == api_username.len() {
        api_username
    } else {
        api_username.subrange(first + 1, position(api_username, '/', first + 1))
    }
}

fn position_of(chars: &Vec<char>, c: char, from: usize) -> (at: usize)
    requires
        from <= chars.len(),
    ensures
        at == position(chars@, c, from as int),
        from <= at <= chars.len(),
{
    let mut at: usize = from;
    while at < chars.len() && chars[at] != c
        invariant
            from <= at <= chars.len(),
            position(chars@, c, from as int) == position(chars@, c, at as int),
        decreases chars.len() - at,
    {
        at += 1;
    }
    at
}

/// The path of `name` in the directory `dir`: the two joined by one slash,
/// which `dir` may bring along itself. In no directory at all, where `dir`
/// is empty, the path is `name` alone.
pub open spec fn path_under(dir: Seq<char>, name: Seq<char>) -> Seq<char> {
    if dir.len() == 0 {
        name
    } else if dir.last() == '/' {
        dir + name
    } else {
        dir + "/"@ + name
    }
}

/// The directory of the credentials below the home directory `home`.
pub open spec fn config_dir_of(home: Seq<char>) -> Seq<char> {
    path_under(path_under(home, ".config"@), "cb"@)
}

/// The file of the credentials below the home directory `home`.
pub open spec fn config_path_of(home: Seq<char>) -> Seq<char> {
    path_under(config_dir_of(home), "config.toml"@)
}

/// Below a home directory that is named and ends in no slash, the
/// credentials are kept in `.config/cb/config.toml`; a closing slash is
/// not doubled; and with no home named the path is relative.
pub proof fn law_config_path(home: Seq<char>)
    ensures
        home.len() > 0 && home.last() != '/' ==> config_path_of(home) == home
            + "/.config/cb/config.toml"@,
        home.len() > 0 && home.last() == '/' ==> config_path_of(home) == home
            + ".config/cb/config.toml"@,
        home.len() == 0 ==> config_path_of(home) == ".config/cb/config.toml"@,
{
    reveal_strlit(".config");
    reveal_strlit("cb");
    reveal_strlit("config.toml");
    reveal_strlit("/");
    reveal_strlit("/.config/cb/config.toml");
    reveal_strlit(".config/cb/config.toml");
    let base = path_under(home, ".config"@);
    assert(base.len() > 0 && base.last() == 'g');
    let dir = path_under(base, "cb"@);
    assert(dir == base + "/"@ + "cb"@);
    assert(dir.len() > 0 && dir.last() == 'b');
    assert(config_path_of(home) == dir + "/"@ + "config.toml"@);
    if home.len() == 0 {
        assert(config_path_of(home) =~= ".config/cb/config.toml"@);
    } else if home.last() == '/' {
        assert(config_path_of(home) =~= home + ".config/cb/config.toml"@);
    } else {
        assert(config_path_of(home) =~= home + "/.config/cb/config.toml"@);
    }
}

/// The path of `name` in the directory `dir`.
pub fn join_path(dir: &str, name: &str) -> (path: String)
    ensures
        path@ == path_under(dir@, name@),
{
    let chars = chars_of(dir);
    let mut path = String::from_str(dir);
    if chars.len() > 0 && chars[chars.len() - 1] != '/' {
        path.append("/");
    }
    path.append(name);
    assert(path@ =~= path_under(dir@, name@));
    path
}

impl Config {
    /// The directory of the credentials below the home directory `home`:
    /// `.config/cb` in it. A slash that closes `home` is not doubled.
    pub fn config_dir(home: &str) -> (dir: String)
        ensures
            dir@ == config_dir_of(home@),
    {
        let base = join_path(home, ".config");
        join_path(base.as_str(), "cb")
    }

    /// Where the credentials are kept below the home directory `home`:
    /// `.config/cb/config.toml` in it.
    pub fn config_path(home: &str) -> (path: String)
        ensures
            path@ == config_path_of(home@),
    {
        let dir = Config::config_dir(home);
        join_path(dir.as_str(), "config.toml")
    }

    /// The account that the credentials belong to.
    pub fn account(&self) -> (r: &str)
        ensures
            r@ == account_of(self.api_username@),
    {
        let chars = chars_of(self.api_username.as_str());
        let first = position_of(&chars, '/', 0);
        self.api_username.as_str().substring_char(0, first)
    }

    /// The user that the credentials belong to.
    pub fn username(&self) -> (r: &str)
        ensures
            r@ == username_of(self.api_username@),
    {
        let chars = chars_of(self.api_username.as_str());
        let first = position_of(&chars, '/', 0);
        if first == chars.len() {
            self.api_username.as_str()
        } else {
            let second = position_of(&chars, '/', first + 1);
            self.api_username.as_str().substring_char(first + 1, second)
        }
    }
}

} // verus!
