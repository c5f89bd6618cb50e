//! The configuration of the bot.
use vstd::prelude::*;

use crate::env::{first_variable_counts, get_var_or, var_or, variables_are_apart};
use crate::http::pairs;
use crate::text::{decimal, is_digit, lowercase, parse_u8, parsed_u8, same};
use crate::text::small_numbers_read_back;

verus! {

/// The configuration of the bot.
#[derive(Clone, Debug, PartialEq)]
pub struct Config<S = String> {
    pub deemix_url: S,
    pub deemix_arl: S,
    pub compose_file: S,
    pub service_name: S,
    pub env_file: S,
    pub users_file: S,
    pub audd_api_key: S,
    pub openai_api_key: S,
    pub whisper_url: S,
    pub deemix_bitrate: u8,
    pub deemix_bitrate_lock: bool,
}

/// The configuration of the bot.
pub type ConfigV = Config<Seq<char>>;

impl View for Config {
    type V = ConfigV;

    open spec fn view(&self) -> ConfigV {
        Config {
            deemix_url: self.deemix_url@,
            deemix_arl: self.deemix_arl@,
            compose_file: self.compose_file@,
            service_name: self.service_name@,
            env_file: self.env_file@,
            users_file: self.users_file@,
            audd_api_key: self.audd_api_key@,
            openai_api_key: self.openai_api_key@,
            whisper_url: self.whisper_url@,
            deemix_bitrate: self.deemix_bitrate,
            deemix_bitrate_lock: self.deemix_bitrate_lock,
        }
    }
}

impl Config<Seq<char>> {
    /// Songs can be recognized: there is a key for AudD.
    pub open spec fn audd(self) -> bool {
        self.audd_api_key.len() > 0
    }

    /// Voice notes can be transcribed: there is a key for OpenAI or the address of a server.
    pub open spec fn whisper(self) -> bool {
        self.openai_api_key.len() > 0 || self.whisper_url.len() > 0
    }
}

/// The quality that a text stands for, the best one where it stands for none.
pub open spec fn bitrate_of(value: Seq<char>) -> u8 {
    match parsed_u8(value) {
        Some(n) => n,
        None => 9,
    }
}

/// What the environment configures.
pub open spec fn config_of(vars: Seq<(Seq<char>, Seq<char>)>) -> ConfigV {
    Config {
        deemix_url: var_or(vars, "DEEMIX_URL"@, "http://localhost:6595"@),
        deemix_arl: var_or(vars, "DEEMIX_ARL"@, ""@),
        compose_file: var_or(vars, "COMPOSE_FILE"@, "/compose/docker-compose.yml"@),
        service_name: var_or(vars, "SERVICE_NAME"@, "teleemix"@),
        env_file: var_or(vars, "ENV_FILE"@, "/app/.env"@),
        users_file: var_or(vars, "USERS_FILE"@, "/app/users.json"@),
        audd_api_key: var_or(vars, "AUDD_API_KEY"@, ""@),
        openai_api_key: var_or(vars, "OPENAI_API_KEY"@, ""@),
        whisper_url: var_or(vars, "WHISPER_URL"@, ""@),
        deemix_bitrate: bitrate_of(var_or(vars, "DEEMIX_BITRATE"@, "9"@)),
        deemix_bitrate_lock: lowercase(var_or(vars, "DEEMIX_BITRATE_LOCK"@, "false"@))
            == "true"@,
    }
}

impl Config {
    /// Reads the configuration from the environment.
    pub fn from_env(vars: &Vec<(String, String)>) -> (r: Config)
        ensures
            r@ == config_of(pairs(vars@)),
    {
        let bitrate = get_var_or(vars, "DEEMIX_BITRATE", "9");
        let lock = get_var_or(vars, "DEEMIX_BITRATE_LOCK", "false").as_str().to_lowercase();
        Config {
            deemix_url: get_var_or(vars, "DEEMIX_URL", "http://localhost:6595"),
            deemix_arl: get_var_or(vars, "DEEMIX_ARL", ""),
            compose_file: get_var_or(vars, "COMPOSE_FILE", "/compose/docker-compose.yml"),
            service_name: get_var_or(vars, "SERVICE_NAME", "teleemix"),
            env_file: get_var_or(vars, "ENV_FILE", "/app/.env"),
            users_file: get_var_or(vars, "USERS_FILE", "/app/users.json"),
            audd_api_key: get_var_or(vars, "AUDD_API_KEY", ""),
            openai_api_key: get_var_or(vars, "OPENAI_API_KEY", ""),
            whisper_url: get_var_or(vars, "WHISPER_URL", ""),
            deemix_bitrate: match parse_u8(bitrate.as_str()) {
                Some(n) => n,
                None => 9,
            },
            deemix_bitrate_lock: same(lock.as_str(), "true"),
        }
    }

    /// Songs can be recognized.
    pub fn audd_enabled(&self) -> (r: bool)
        ensures
            r == self@.audd(),
    {
        !self.audd_api_key.as_str().is_empty()
    }

    /// Voice notes can be transcribed.
    pub fn whisper_enabled(&self) -> (r: bool)
        ensures
            r == self@.whisper(),
    {
        !self.openai_api_key.as_str().is_empty() || !self.whisper_url.as_str().is_empty()
    }
}

// ---- Laws ----------------------------------------------------------------------------------

proof fn names_spelled()
    ensures
        "DEEMIX_URL"@.len() == 10 && "DEEMIX_URL"@[7] == 'U',
        "DEEMIX_ARL"@.len() == 10 && "DEEMIX_ARL"@[7] == 'A',
        "COMPOSE_FILE"@.len() == 12,
        "SERVICE_NAME"@.len() == 12 && "SERVICE_NAME"@[0] == 'S',
        "COMPOSE_FILE"@[0] == 'C',
        "ENV_FILE"@.len() == 8,
        "USERS_FILE"@.len() == 10 && "USERS_FILE"@[7] == 'I',
        "AUDD_API_KEY"@.len() == 12 && "AUDD_API_KEY"@[0] == 'A',
        "OPENAI_API_KEY"@.len() == 14 && "OPENAI_API_KEY"@[0] == 'O',
        "WHISPER_URL"@.len() == 11,
        "DEEMIX_BITRATE"@.len() == 14 && "DEEMIX_BITRATE"@[0] == 'D',
        "DEEMIX_BITRATE_LOCK"@.len() == 19,
{
    reveal_strlit("DEEMIX_URL");
    reveal_strlit("DEEMIX_ARL");
    reveal_strlit("COMPOSE_FILE");
    reveal_strlit("SERVICE_NAME");
    reveal_strlit("ENV_FILE");
    reveal_strlit("USERS_FILE");
    reveal_strlit("AUDD_API_KEY");
    reveal_strlit("OPENAI_API_KEY");
    reveal_strlit("WHISPER_URL");
    reveal_strlit("DEEMIX_BITRATE");
    reveal_strlit("DEEMIX_BITRATE_LOCK");
}

/// The environment with one variable set anew.
pub open spec fn with_var(
    vars: Seq<(Seq<char>, Seq<char>)>,
    name: Seq<char>,
    value: Seq<char>,
) -> Seq<(Seq<char>, Seq<char>)> {
    seq![(name, value)] + vars
}

proof fn one_variable_changes(vars: Seq<(Seq<char>, Seq<char>)>, name: Seq<char>, value: Seq<char>)
    ensures
        forall|other: Seq<char>, otherwise: Seq<char>| #[trigger]
            var_or(with_var(vars, name, value), other, otherwise) == if other == name {
                value
            } else {
                var_or(vars, other, otherwise)
            },
{
    assert forall|other: Seq<char>, otherwise: Seq<char>| #[trigger]
        var_or(with_var(vars, name, value), other, otherwise) == (if other == name {
            value
        } else {
            var_or(vars, other, otherwise)
        }) by {
        variables_are_apart(vars, name, value, other, otherwise);
    }
}

/// Each variable configures what it is named after and nothing else: setting it changes that part
/// of the configuration and leaves all others as they were.
pub proof fn variables_configure_one_thing(vars: Seq<(Seq<char>, Seq<char>)>, value: Seq<char>)
    ensures
        ({
            let old = config_of(vars);
            &&& config_of(with_var(vars, "DEEMIX_URL"@, value)) == (Config { deemix_url: value, ..old })
            &&& config_of(with_var(vars, "DEEMIX_ARL"@, value)) == (Config { deemix_arl: value, ..old })
            &&& config_of(with_var(vars, "COMPOSE_FILE"@, value)) == (Config {
                compose_file: value,
                ..old
            })
            &&& config_of(with_var(vars, "SERVICE_NAME"@, value)) == (Config {
                service_name: value,
                ..old
            })
            &&& config_of(with_var(vars, "ENV_FILE"@, value)) == (Config { env_file: value, ..old })
            &&& config_of(with_var(vars, "USERS_FILE"@, value)) == (Config { users_file: value, ..old })
            &&& config_of(with_var(vars, "AUDD_API_KEY"@, value)) == (Config {
                audd_api_key: value,
                ..old
            })
            &&& config_of(with_var(vars, "OPENAI_API_KEY"@, value)) == (Config {
                openai_api_key: value,
                ..old
            })
            &&& config_of(with_var(vars, "WHISPER_URL"@, value)) == (Config {
                whisper_url: value,
                ..old
            })
        }),
{
    names_spelled();
    one_variable_changes(vars, "DEEMIX_URL"@, value);
    one_variable_changes(vars, "DEEMIX_ARL"@, value);
    one_variable_changes(vars, "COMPOSE_FILE"@, value);
    one_variable_changes(vars, "SERVICE_NAME"@, value);
    one_variable_changes(vars, "ENV_FILE"@, value);
    one_variable_changes(vars, "USERS_FILE"@, value);
    one_variable_changes(vars, "AUDD_API_KEY"@, value);
    one_variable_changes(vars, "OPENAI_API_KEY"@, value);
    one_variable_changes(vars, "WHISPER_URL"@, value);
}

/// The quality is the number that `DEEMIX_BITRATE` spells, the best one where it spells none below
/// 256, and it is locked exactly where `DEEMIX_BITRATE_LOCK` says `true`, whatever the case.
pub proof fn quality_is_configured(vars: Seq<(Seq<char>, Seq<char>)>, n: nat, value: Seq<char>)
    ensures
        ({
            let old = config_of(vars);
            let spelled = config_of(with_var(vars, "DEEMIX_BITRATE"@, decimal(n)));
            let other = config_of(with_var(vars, "DEEMIX_BITRATE"@, value));
            let locked = config_of(with_var(vars, "DEEMIX_BITRATE_LOCK"@, value));
            &&& n <= 255 ==> spelled == (Config { deemix_bitrate: n as u8, ..old })
            &&& n > 255 ==> spelled == (Config { deemix_bitrate: 9, ..old })
            &&& (exists|i: int| 0 < i < value.len() && !is_digit(#[trigger] value[i]))
                ==> other == (Config { deemix_bitrate: 9, ..old })
            &&& value.len() == 0 || !is_digit(value[0]) && value[0] != '+' ==> other == (Config {
                deemix_bitrate: 9,
                ..old
            })
            &&& locked == (Config { deemix_bitrate_lock: lowercase(value) == "true"@, ..old })
        }),
{
    names_spelled();
    one_variable_changes(vars, "DEEMIX_BITRATE"@, decimal(n));
    one_variable_changes(vars, "DEEMIX_BITRATE"@, value);
    one_variable_changes(vars, "DEEMIX_BITRATE_LOCK"@, value);
    small_numbers_read_back(n, value);
    if value.len() == 0 {
        assert(value =~= Seq::empty());
    }
}

/// Where no variable is set, deemix runs on the same machine, the files are those of the container,
/// no key is there, the quality is the best one, and the lock reads as the word `false` does.
pub proof fn unset_variables_have_defaults(vars: Seq<(Seq<char>, Seq<char>)>)
    requires
        forall|i: int|
            0 <= i < vars.len() ==> {
                let name = (#[trigger] vars[i]).0;
                &&& name != "DEEMIX_URL"@ && name != "DEEMIX_ARL"@ && name != "COMPOSE_FILE"@
                &&& name != "SERVICE_NAME"@ && name != "ENV_FILE"@ && name != "USERS_FILE"@
                &&& name != "AUDD_API_KEY"@ && name != "OPENAI_API_KEY"@ && name != "WHISPER_URL"@
                &&& name != "DEEMIX_BITRATE"@ && name != "DEEMIX_BITRATE_LOCK"@
            },
    ensures
        config_of(vars) == (Config {
            deemix_url: "http://localhost:6595"@,
            deemix_arl: ""@,
            compose_file: "/compose/docker-compose.yml"@,
            service_name: "teleemix"@,
            env_file: "/app/.env"@,
            users_file: "/app/users.json"@,
            audd_api_key: ""@,
            openai_api_key: ""@,
            whisper_url: ""@,
            deemix_bitrate: 9,
            deemix_bitrate_lock: lowercase("false"@) == "true"@,
        }),
        !config_of(vars).audd() && !config_of(vars).whisper(),
{
    let n = vars.len() as int;
    first_variable_counts(vars, "DEEMIX_URL"@, "http://localhost:6595"@, n);
    first_variable_counts(vars, "DEEMIX_ARL"@, ""@, n);
    first_variable_counts(vars, "COMPOSE_FILE"@, "/compose/docker-compose.yml"@, n);
    first_variable_counts(vars, "SERVICE_NAME"@, "teleemix"@, n);
    first_variable_counts(vars, "ENV_FILE"@, "/app/.env"@, n);
    first_variable_counts(vars, "USERS_FILE"@, "/app/users.json"@, n);
    first_variable_counts(vars, "AUDD_API_KEY"@, ""@, n);
    first_variable_counts(vars, "OPENAI_API_KEY"@, ""@, n);
    first_variable_counts(vars, "WHISPER_URL"@, ""@, n);
    first_variable_counts(vars, "DEEMIX_BITRATE"@, "9"@, n);
    first_variable_counts(vars, "DEEMIX_BITRATE_LOCK"@, "false"@, n);
    reveal_strlit("");
    reveal_strlit("9");
    small_numbers_read_back(9, Seq::empty());
    assert(decimal(9) =~= "9"@);
}

/// Song recognition takes a key for AudD; voice search takes a key for OpenAI or the address of a
/// server. Neither key opens the other feature.
pub proof fn features_take_their_own_keys(config: ConfigV, key: Seq<char>)
    requires
        key.len() > 0,
    ensures
        (Config { audd_api_key: key, ..config }).audd(),
        (Config { audd_api_key: key, ..config }).whisper() == config.whisper(),
        (Config { openai_api_key: key, ..config }).whisper(),
        (Config { whisper_url: key, ..config }).whisper(),
        (Config { openai_api_key: key, whisper_url: key, ..config }).audd() == config.audd(),
        config.audd_api_key.len() == 0 ==> !config.audd(),
        config.openai_api_key.len() == 0 && config.whisper_url.len() == 0 ==> !config.whisper(),
{
}

} // verus!
