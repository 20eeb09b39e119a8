//! The daemon's configuration, read from its environment variables.
use vstd::prelude::*;

use crate::daemon::error::{AppError, INTERNAL_SERVER_ERROR};
use crate::string_map::StringMap;
use crate::text::{
    chars_of, fields, join, join_chars, split_fields, string_of, views, Separator,
};
use crate::daemon::models::strs;

verus! {

/// The value of an ASCII digit character.
pub open spec fn digit_value(c: char) -> nat {
    ((c as u32) - ('0' as u32)) as nat
}

pub open spec fn is_ascii_digit(c: char) -> bool {
    '0' <= c && c <= '9'
}

/// The number that a string of decimal digits writes.
pub open spec fn digits_value(d: Seq<char>) -> nat
    decreases d.len(),
{
    if d.len() == 0 {
        0
    } else {
        digits_value(d.drop_last()) * 10 + digit_value(d.last())
    }
}

/// The digits of an unsigned number: the text after an optional `+`.
pub open spec fn unsigned_digits(s: Seq<char>) -> Seq<char> {
    if s.len() > 0 && s[0] == '+' {
        s.drop_first()
    } else {
        s
    }
}

/// Every character is an ASCII digit.
pub open spec fn all_digits(d: Seq<char>) -> bool {
    forall|i: int| 0 <= i < d.len() ==> #[trigger] is_ascii_digit(d[i])
}

/// What `str::parse::<u16>` gives: an optional `+`, then one or more ASCII
/// digits whose value is at most 65535.
pub open spec fn parsed_u16(s: Seq<char>) -> Option<u16> {
    let d = unsigned_digits(s);
    if d.len() > 0 && all_digits(d) && digits_value(d) <= 65535 {
        Some(digits_value(d) as u16)
    } else {
        None
    }
}

proof fn lemma_digits_value_monotone(d: Seq<char>, k: int)
    requires
        0 <= k <= d.len(),
        forall|i: int| 0 <= i < d.len() ==> #[trigger] is_ascii_digit(d[i]),
    ensures
        digits_value(d.take(k)) <= digits_value(d),
    decreases d.len() - k,
{
    if k < d.len() {
        lemma_digits_value_monotone(d, k + 1);
        assert(d.take(k + 1).drop_last() =~= d.take(k));
    } else {
        assert(d.take(k) =~= d);
    }
}

proof fn lemma_digit_char(k: nat)
    requires
        k < 10,
    ensures
        is_ascii_digit(crate::text::digit_char(k)),
        digit_value(crate::text::digit_char(k)) == k,
{
}

proof fn lemma_decimal_digits(n: nat)
    ensures
        crate::text::decimal_nat(n).len() > 0,
        all_digits(crate::text::decimal_nat(n)),
        digits_value(crate::text::decimal_nat(n)) == n,
    decreases n,
{
    let d = crate::text::decimal_nat(n);
    if n < 10 {
        lemma_digit_char(n);
        assert(d.drop_last() =~= Seq::<char>::empty());
        assert(d.last() == crate::text::digit_char(n));
        assert(digits_value(d) == digits_value(d.drop_last()) * 10 + digit_value(d.last()));
        assert(digits_value(Seq::<char>::empty()) == 0);
    } else {
        lemma_decimal_digits(n / 10);
        lemma_digit_char(n % 10);
        let h = crate::text::decimal_nat(n / 10);
        assert(d == h.push(crate::text::digit_char(n % 10)));
        assert(d.drop_last() =~= h);
        assert(d.last() == crate::text::digit_char(n % 10));
        assert(digits_value(d) == digits_value(h) * 10 + digit_value(d.last()));
        assert(n == (n / 10) * 10 + n % 10);
        assert forall|i: int| 0 <= i < d.len() implies #[trigger] is_ascii_digit(d[i]) by {
            if i < h.len() {
                assert(d[i] == h[i]);
            }
        }
    }
}

/// Parsing the decimal text of a port number gives the number back.
pub proof fn law_port_text_round_trip(n: u16)
    ensures
        parsed_u16(crate::text::decimal(n as int)) == Some(n),
{
    lemma_decimal_digits(n as nat);
    let d = crate::text::decimal_nat(n as nat);
    assert(is_ascii_digit(d[0]));
    assert(unsigned_digits(d) == d);
}

/// `str::parse::<u16>`.
pub fn parse_u16(s: &str) -> (r: Option<u16>)
    ensures
        r == parsed_u16(s@),
{
    let v = chars_of(s);
    let start: usize = if v.len() > 0 && v[0] == '+' { 1 } else { 0 };
    let ghost d = unsigned_digits(s@);
    assert(d =~= v@.skip(start as int));
    if start == v.len() {
        return None;
    }
    let mut value: u32 = 0;
    let mut i: usize = start;
    while i < v.len()
        invariant
            start <= i <= v.len(),
            v@ == s@,
            d == v@.skip(start as int),
            d == unsigned_digits(s@),
            d.len() > 0,
            value == digits_value(d.take(i - start)),
            value <= 65535,
            forall|k: int| 0 <= k < i - start ==> #[trigger] is_ascii_digit(d[k]),
        decreases v.len() - i,
    {
        let c = v[i];
        assert(d[i - start] == v@[i as int]);
        if !('0' <= c && c <= '9') {
            proof {
                let k = i - start;
                assert(!is_ascii_digit(d[k]));
                assert(!all_digits(d));
                assert(parsed_u16(s@) is None);
            }
            return None;
        }
        let next = value * 10 + ((c as u32) - ('0' as u32));
        proof {
            assert(d.take(i - start + 1).drop_last() =~= d.take(i - start));
            assert(d.take(i - start + 1).last() == c);
        }
        if next > 65535 {
            proof {
                if all_digits(d) {
                    lemma_digits_value_monotone(d, i - start + 1);
                    assert(digits_value(d) > 65535);
                }
                assert(parsed_u16(s@) is None);
            }
            return None;
        }
        value = next;
        i = i + 1;
    }
    assert(d.take(d.len() as int) =~= d);
    Some(value as u16)
}

/// The daemon's configuration.
pub struct Config {
    pub bind_addr: String,
    pub api_token: String,
    pub state_file: String,
    pub managed_label: String,
    pub minecraft_image: String,
    pub rust_image: String,
    pub hytale_image: String,
    pub base_volume_dir: String,
    pub default_working_dir: String,
    pub hytale_internal_port: u16,
    pub hytale_start_command: Vec<String>,
}

/// The value of an environment variable, or a default.
pub open spec fn var_or(env: Map<Seq<char>, Seq<char>>, name: Seq<char>, default: Seq<char>) -> Seq<
    char,
> {
    if env.contains_key(name) {
        env[name]
    } else {
        default
    }
}

/// A port read from an environment variable, or a default when it is unset
/// or not a port number.
pub open spec fn port_or(env: Map<Seq<char>, Seq<char>>, name: Seq<char>, default: u16) -> u16 {
    if env.contains_key(name) && parsed_u16(env[name]) is Some {
        parsed_u16(env[name])->0
    } else {
        default
    }
}

/// The default command of a container, as words.
pub open spec fn default_start_command(env: Map<Seq<char>, Seq<char>>) -> Seq<Seq<char>> {
    fields(
        Separator::WhiteSpace,
        var_or(env, "DAEMON_DEFAULT_START_COMMAND"@, "sleep infinity"@),
    )
}

impl Config {
    /// What `from_env` reads out of the environment `env`, when the API
    /// token is set.
    pub open spec fn from_env_spec(self, env: Map<Seq<char>, Seq<char>>) -> bool {
        let default_port = port_or(env, "DAEMON_DEFAULT_INTERNAL_PORT"@, 25565);
        &&& self.bind_addr@ == var_or(env, "DAEMON_BIND_ADDR"@, "0.0.0.0:8080"@)
        &&& self.api_token@ == env["DAEMON_API_TOKEN"@]
        &&& self.state_file@ == var_or(
            env,
            "DAEMON_STATE_FILE"@,
            "/var/lib/game-host-daemon/state.json"@,
        )
        &&& self.managed_label@ == "game-host-daemon.managed"@
        &&& self.minecraft_image@ == var_or(
            env,
            "DAEMON_MINECRAFT_IMAGE"@,
            "didstopia/minecraft-server:latest"@,
        )
        &&& self.rust_image@ == var_or(env, "DAEMON_RUST_IMAGE"@, "ipajudd/rustgs:latest"@)
        &&& self.hytale_image@ == var_or(
            env,
            "DAEMON_HYTALE_IMAGE"@,
            var_or(env, "DAEMON_DEFAULT_IMAGE"@, "ubuntu:22.04"@),
        )
        &&& self.base_volume_dir@ == var_or(
            env,
            "DAEMON_BASE_VOLUME_DIR"@,
            "/var/lib/game-host-daemon/servers"@,
        )
        &&& self.default_working_dir@ == var_or(
            env,
            "DAEMON_DEFAULT_WORKING_DIR"@,
            "/home/container"@,
        )
        &&& self.hytale_internal_port == port_or(env, "DAEMON_HYTALE_INTERNAL_PORT"@, default_port)
        &&& strs(self.hytale_start_command@) == fields(
            Separator::WhiteSpace,
            var_or(
                env,
                "DAEMON_HYTALE_START_COMMAND"@,
                join(default_start_command(env), " "@),
            ),
        )
    }

    /// `Config::from_env`: the configuration that the environment variables
    /// `env` give; an error when `DAEMON_API_TOKEN` is unset.
    pub fn from_env(env: &StringMap) -> (r: Result<Config, AppError>)
        ensures
            match r {
                Ok(c) => env@.contains_key("DAEMON_API_TOKEN"@) && c.from_env_spec(env@),
                Err(e) => !env@.contains_key("DAEMON_API_TOKEN"@) && e.is(
                    INTERNAL_SERVER_ERROR,
                    "DAEMON_API_TOKEN must be set"@,
                ),
            },
    {
        let bind_addr = var_or_default(env, "DAEMON_BIND_ADDR", "0.0.0.0:8080");
        let api_token = match env.get("DAEMON_API_TOKEN") {
            Some(t) => t,
            None => {
                return Err(AppError::internal("DAEMON_API_TOKEN must be set".to_owned()));
            },
        };
        let state_file = var_or_default(
            env,
            "DAEMON_STATE_FILE",
            "/var/lib/game-host-daemon/state.json",
        );
        let default_image = var_or_default(env, "DAEMON_DEFAULT_IMAGE", "ubuntu:22.04");
        let minecraft_image = var_or_default(
            env,
            "DAEMON_MINECRAFT_IMAGE",
            "didstopia/minecraft-server:latest",
        );
        let rust_image = var_or_default(env, "DAEMON_RUST_IMAGE", "ipajudd/rustgs:latest");
        let hytale_image = match env.get("DAEMON_HYTALE_IMAGE") {
            Some(v) => v,
            None => default_image,
        };
        let base_volume_dir = var_or_default(
            env,
            "DAEMON_BASE_VOLUME_DIR",
            "/var/lib/game-host-daemon/servers",
        );
        let default_working_dir = var_or_default(
            env,
            "DAEMON_DEFAULT_WORKING_DIR",
            "/home/container",
        );
        let default_internal_port = port_or_default(env, "DAEMON_DEFAULT_INTERNAL_PORT", 25565);
        let default_command_text = var_or_default(
            env,
            "DAEMON_DEFAULT_START_COMMAND",
            "sleep infinity",
        );
        let default_start_command = split_fields(
            Separator::WhiteSpace,
            &chars_of(default_command_text.as_str()),
        );
        let hytale_internal_port = port_or_default(
            env,
            "DAEMON_HYTALE_INTERNAL_PORT",
            default_internal_port,
        );
        let hytale_command_text = match env.get("DAEMON_HYTALE_START_COMMAND") {
            Some(v) => v,
            None => {
                let mut space: Vec<char> = Vec::new();
                space.push(' ');
                proof {
                    reveal_strlit(" ");
                    assert(space@ =~= " "@);
                }
                string_of(&join_chars(&default_start_command, &space))
            },
        };
        let words = split_fields(Separator::WhiteSpace, &chars_of(hytale_command_text.as_str()));
        let hytale_start_command = strings_of(&words);
        Ok(Config {
            bind_addr,
            api_token,
            state_file,
            managed_label: "game-host-daemon.managed".to_owned(),
            minecraft_image,
            rust_image,
            hytale_image,
            base_volume_dir,
            default_working_dir,
            hytale_internal_port,
            hytale_start_command,
        })
    }
}

/// Each setting the environment gives overrides its default: an image,
/// address, state file or directory that is set is the one the daemon
/// uses, and one that is unset takes its documented default.  The Hytale
/// image falls back first to `DAEMON_DEFAULT_IMAGE`.
pub proof fn law_environment_overrides_defaults(c: Config, env: Map<Seq<char>, Seq<char>>)
    requires
        c.from_env_spec(env),
    ensures
        env.contains_key("DAEMON_MINECRAFT_IMAGE"@) ==> c.minecraft_image@ == env["DAEMON_MINECRAFT_IMAGE"@],
        !env.contains_key("DAEMON_MINECRAFT_IMAGE"@) ==> c.minecraft_image@ == "didstopia/minecraft-server:latest"@,
        env.contains_key("DAEMON_RUST_IMAGE"@) ==> c.rust_image@ == env["DAEMON_RUST_IMAGE"@],
        !env.contains_key("DAEMON_RUST_IMAGE"@) ==> c.rust_image@ == "ipajudd/rustgs:latest"@,
        env.contains_key("DAEMON_HYTALE_IMAGE"@) ==> c.hytale_image@ == env["DAEMON_HYTALE_IMAGE"@],
        !env.contains_key("DAEMON_HYTALE_IMAGE"@) && env.contains_key("DAEMON_DEFAULT_IMAGE"@)
            ==> c.hytale_image@ == env["DAEMON_DEFAULT_IMAGE"@],
        !env.contains_key("DAEMON_HYTALE_IMAGE"@) && !env.contains_key("DAEMON_DEFAULT_IMAGE"@)
            ==> c.hytale_image@ == "ubuntu:22.04"@,
        env.contains_key("DAEMON_BIND_ADDR"@) ==> c.bind_addr@ == env["DAEMON_BIND_ADDR"@],
        !env.contains_key("DAEMON_BIND_ADDR"@) ==> c.bind_addr@ == "0.0.0.0:8080"@,
        env.contains_key("DAEMON_STATE_FILE"@) ==> c.state_file@ == env["DAEMON_STATE_FILE"@],
        env.contains_key("DAEMON_BASE_VOLUME_DIR"@) ==> c.base_volume_dir@ == env["DAEMON_BASE_VOLUME_DIR"@],
        env.contains_key("DAEMON_DEFAULT_WORKING_DIR"@) ==> c.default_working_dir@
            == env["DAEMON_DEFAULT_WORKING_DIR"@],
        c.api_token@ == env["DAEMON_API_TOKEN"@],
        env.contains_key("DAEMON_HYTALE_INTERNAL_PORT"@) && parsed_u16(
            env["DAEMON_HYTALE_INTERNAL_PORT"@],
        ) is Some ==> Some(c.hytale_internal_port) == parsed_u16(env["DAEMON_HYTALE_INTERNAL_PORT"@]),
        !(env.contains_key("DAEMON_HYTALE_INTERNAL_PORT"@) && parsed_u16(
            env["DAEMON_HYTALE_INTERNAL_PORT"@],
        ) is Some) && !(env.contains_key("DAEMON_DEFAULT_INTERNAL_PORT"@) && parsed_u16(
            env["DAEMON_DEFAULT_INTERNAL_PORT"@],
        ) is Some) ==> c.hytale_internal_port == 25565,
        c.managed_label@ == "game-host-daemon.managed"@,
{
}

/// Unless `DAEMON_HYTALE_START_COMMAND` is set, a Hytale server runs the
/// daemon's default command, word for word.
pub proof fn law_hytale_command_defaults_to_default_command(env: Map<Seq<char>, Seq<char>>)
    requires
        !env.contains_key("DAEMON_HYTALE_START_COMMAND"@),
    ensures
        fields(
            Separator::WhiteSpace,
            var_or(env, "DAEMON_HYTALE_START_COMMAND"@, join(default_start_command(env), " "@)),
        ) == default_start_command(env),
{
    reveal_strlit(" ");
    assert(" "@.len() == 1 && " "@[0] == ' ');
    assert(crate::text::is_white_space(' '));
    let words = default_start_command(env);
    crate::text::lemma_fields_are_fields(
        Separator::WhiteSpace,
        var_or(env, "DAEMON_DEFAULT_START_COMMAND"@, "sleep infinity"@),
    );
    crate::text::lemma_fields_of_join(Separator::WhiteSpace, words, " "@);
}

/// The strings made of the given character vectors.
pub fn strings_of(words: &Vec<Vec<char>>) -> (r: Vec<String>)
    ensures
        strs(r@) == views(words@),
{
    let mut r: Vec<String> = Vec::new();
    let mut i: usize = 0;
    while i < words.len()
        invariant
            i <= words.len(),
            strs(r@) == views(words@).take(i as int),
        decreases words.len() - i,
    {
        let ghost before = r@;
        let w = string_of(&words[i]);
        r.push(w);
        proof {
            assert(r@ == before.push(w));
            assert(strs(r@) =~= strs(before).push(w@));
            assert(views(words@)[i as int] == words@[i as int]@);
            assert(views(words@).take(i + 1) =~= views(words@).take(i as int).push(words@[i as int]@));
        }
        i = i + 1;
    }
    assert(views(words@).take(words.len() as int) =~= views(words@));
    r
}

fn var_or_default(env: &StringMap, name: &str, default: &str) -> (r: String)
    ensures
        r@ == var_or(env@, name@, default@),
{
    match env.get(name) {
        Some(v) => v,
        None => default.to_owned(),
    }
}

fn port_or_default(env: &StringMap, name: &str, default: u16) -> (r: u16)
    ensures
        r == port_or(env@, name@, default),
{
    match env.get(name) {
        Some(v) => match parse_u16(v.as_str()) {
            Some(p) => p,
            None => default,
        },
        None => default,
    }
}

} // verus!
