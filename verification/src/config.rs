//! The module's settings, read from the arguments of its PAM configuration
//! line (`key=value` words).
use vstd::prelude::*;
use vstd::string::*;

use crate::text::{
    decimal, has_prefix, lemma_decimal_parse, parse_decimal_u64, parse_u64, str_eq, strip_prefix,
    views,
};

verus! {

/// The settings of the module.
///
/// The similarity threshold is a decimal fraction; its text is kept as given
/// (every `threshold=` value, in order) and read as a number by the caller,
/// which takes the last value that reads as one, or 0.8 when none does.
pub struct Config {
    pub threshold_args: Vec<String>,
    pub timeout_secs: u64,
    pub device: String,
    pub debug: bool,
    pub face_model: String,
    pub embed_model: String,
    /// 0 disables the uptime guard; login stacks set e.g. 120.
    pub min_uptime_secs: u64,
}

/// The settings as mathematical values.
pub struct ConfigModel {
    pub threshold_args: Seq<Seq<char>>,
    pub timeout_secs: u64,
    pub device: Seq<char>,
    pub debug: bool,
    pub face_model: Seq<char>,
    pub embed_model: Seq<char>,
    pub min_uptime_secs: u64,
}

impl View for Config {
    type V = ConfigModel;

    open spec fn view(&self) -> ConfigModel {
        ConfigModel {
            threshold_args: views(self.threshold_args@),
            timeout_secs: self.timeout_secs,
            device: self.device@,
            debug: self.debug,
            face_model: self.face_model@,
            embed_model: self.embed_model@,
            min_uptime_secs: self.min_uptime_secs,
        }
    }
}

/// The settings when no argument is given.
pub open spec fn default_config() -> ConfigModel {
    ConfigModel {
        threshold_args: Seq::empty(),
        timeout_secs: 3,
        device: "/dev/video2"@,
        debug: false,
        face_model: "/etc/rustface/models/seeta_fd_frontal_v1.0.bin"@,
        embed_model: "/etc/rustface/models/arcface.onnx"@,
        min_uptime_secs: 0,
    }
}

/// What one argument does to the settings. The keys are tried in this
/// order; a number that does not read as a `u64` leaves its setting as it
/// was, and an unknown argument is ignored.
pub open spec fn apply_arg(c: ConfigModel, arg: Seq<char>) -> ConfigModel {
    if has_prefix(arg, "threshold="@) {
        ConfigModel {
            threshold_args: c.threshold_args.push(arg.skip("threshold="@.len() as int)),
            ..c
        }
    } else if has_prefix(arg, "timeout="@) {
        match parse_u64(arg.skip("timeout="@.len() as int)) {
            Some(v) => ConfigModel { timeout_secs: v, ..c },
            None => c,
        }
    } else if has_prefix(arg, "device="@) {
        ConfigModel { device: arg.skip("device="@.len() as int), ..c }
    } else if arg == "debug=true"@ || arg == "debug"@ {
        ConfigModel { debug: true, ..c }
    } else if has_prefix(arg, "face_model="@) {
        ConfigModel { face_model: arg.skip("face_model="@.len() as int), ..c }
    } else if has_prefix(arg, "embed_model="@) {
        ConfigModel { embed_model: arg.skip("embed_model="@.len() as int), ..c }
    } else if has_prefix(arg, "min_uptime="@) {
        match parse_u64(arg.skip("min_uptime="@.len() as int)) {
            Some(v) => ConfigModel { min_uptime_secs: v, ..c },
            None => c,
        }
    } else {
        c
    }
}

/// The settings after the arguments `args`, applied from first to last.
pub open spec fn config_of(args: Seq<Seq<char>>) -> ConfigModel
    decreases args.len(),
{
    if args.len() == 0 {
        default_config()
    } else {
        apply_arg(config_of(args.drop_last()), args.last())
    }
}

impl Default for Config {
    fn default() -> (c: Self)
        ensures
            c@ == default_config(),
    {
        let c = Config {
            threshold_args: Vec::new(),
            timeout_secs: 3,
            device: String::from_str("/dev/video2"),
            debug: false,
            face_model: String::from_str("/etc/rustface/models/seeta_fd_frontal_v1.0.bin"),
            embed_model: String::from_str("/etc/rustface/models/arcface.onnx"),
            min_uptime_secs: 0,
        };
        assert(c@.threshold_args =~= Seq::<Seq<char>>::empty());
        c
    }
}

impl Config {
    /// Applies one argument to the settings.
    fn apply(&mut self, arg: &str)
        ensures
            final(self)@ == apply_arg(old(self)@, arg@),
    {
        if let Some(val) = strip_prefix(arg, "threshold=") {
            let ghost before = self.threshold_args@;
            self.threshold_args.push(val);
            assert(views(self.threshold_args@) =~= views(before).push(
                arg@.skip("threshold="@.len() as int),
            ));
        } else if let Some(val) = strip_prefix(arg, "timeout=") {
            if let Some(v) = parse_decimal_u64(val.as_str()) {
                self.timeout_secs = v;
            }
        } else if let Some(val) = strip_prefix(arg, "device=") {
            self.device = val;
        } else if str_eq(arg, "debug=true") || str_eq(arg, "debug") {
            self.debug = true;
        } else if let Some(val) = strip_prefix(arg, "face_model=") {
            self.face_model = val;
        } else if let Some(val) = strip_prefix(arg, "embed_model=") {
            self.embed_model = val;
        } else if let Some(val) = strip_prefix(arg, "min_uptime=") {
            if let Some(v) = parse_decimal_u64(val.as_str()) {
                self.min_uptime_secs = v;
            }
        }
    }

    /// The settings given by the module's arguments, applied from first to
    /// last over the defaults. It always succeeds; unknown arguments and
    /// numbers that do not read are ignored.
    pub fn from_pam_args(args: &Vec<String>) -> (res: Result<Config, ()>)
        ensures
            res matches Ok(c) && c@ == config_of(views(args@)),
    {
        let mut cfg = Config::default();
        let mut i: usize = 0;
        while i < args.len()
            invariant
                i <= args.len(),
                cfg@ == config_of(views(args@.take(i as int))),
            decreases args.len() - i,
        {
            cfg.apply(args[i].as_str());
            proof {
                let prev = views(args@.take(i as int));
                let next = views(args@.take(i + 1));
                assert(next.drop_last() =~= prev);
                assert(next.last() == args@[i as int]@);
            }
            i = i + 1;
        }
        assert(args@.take(args.len() as int) == args@);
        Ok(cfg)
    }

    /// Whether the camera is to be found by scanning the video devices
    /// (the device setting is `auto`) rather than opened by its path.
    pub fn auto_detects_camera(&self) -> (b: bool)
        ensures
            b == (self.device@ == "auto"@),
    {
        str_eq(self.device.as_str(), "auto")
    }
}

/// An argument with none of the known keys leaves the settings unchanged.
pub proof fn lemma_unknown_arg_ignored(c: ConfigModel, arg: Seq<char>)
    requires
        !has_prefix(arg, "threshold="@),
        !has_prefix(arg, "timeout="@),
        !has_prefix(arg, "device="@),
        arg != "debug=true"@,
        arg != "debug"@,
        !has_prefix(arg, "face_model="@),
        !has_prefix(arg, "embed_model="@),
        !has_prefix(arg, "min_uptime="@),
    ensures
        apply_arg(c, arg) == c,
{
}

/// With no arguments the settings are the defaults.
pub proof fn lemma_no_args_default()
    ensures
        config_of(Seq::empty()) == default_config(),
{
}

/// `timeout=N` sets the timeout to `N` seconds, whatever came before it.
pub proof fn lemma_timeout_setting(args: Seq<Seq<char>>, n: u64)
    ensures
        config_of(args.push("timeout="@ + decimal(n as nat))).timeout_secs == n,
{
    reveal_strlit("timeout=");
    reveal_strlit("threshold=");
    let arg = "timeout="@ + decimal(n as nat);
    let all = args.push(arg);
    assert(all.drop_last() == args);
    assert(all.last() == arg);
    assert(arg[1] == 'i');
    if has_prefix(arg, "threshold="@) {
        assert(arg.take(10)[1] == "threshold="@[1]);
    }
    assert(has_prefix(arg, "timeout="@)) by {
        assert(arg.take(8) =~= "timeout="@);
    }
    assert(arg.skip(8) =~= decimal(n as nat));
    lemma_decimal_parse(n);
}

/// `min_uptime=N` sets the minimum uptime to `N` seconds, whatever came
/// before it.
pub proof fn lemma_min_uptime_setting(args: Seq<Seq<char>>, n: u64)
    ensures
        config_of(args.push("min_uptime="@ + decimal(n as nat))).min_uptime_secs == n,
{
    reveal_strlit("min_uptime=");
    reveal_strlit("threshold=");
    reveal_strlit("timeout=");
    reveal_strlit("device=");
    reveal_strlit("debug=true");
    reveal_strlit("debug");
    reveal_strlit("face_model=");
    reveal_strlit("embed_model=");
    let arg = "min_uptime="@ + decimal(n as nat);
    let all = args.push(arg);
    assert(all.drop_last() == args);
    assert(all.last() == arg);
    assert(arg[0] == 'm');
    if has_prefix(arg, "threshold="@) {
        assert(arg.take(10)[0] == "threshold="@[0]);
    }
    if has_prefix(arg, "timeout="@) {
        assert(arg.take(8)[0] == "timeout="@[0]);
    }
    if has_prefix(arg, "device="@) {
        assert(arg.take(7)[0] == "device="@[0]);
    }
    assert(arg != "debug=true"@);
    assert(arg != "debug"@);
    if has_prefix(arg, "face_model="@) {
        assert(arg.take(11)[0] == "face_model="@[0]);
    }
    if has_prefix(arg, "embed_model="@) {
        assert(arg.take(12)[0] == "embed_model="@[0]);
    }
    assert(has_prefix(arg, "min_uptime="@)) by {
        assert(arg.take(11) =~= "min_uptime="@);
    }
    assert(arg.skip(11) =~= decimal(n as nat));
    lemma_decimal_parse(n);
}

/// An argument that starts with `k1` does not start with a key `k2` that
/// differs from `k1` at position `i`.
proof fn lemma_prefix_excludes(arg: Seq<char>, k1: Seq<char>, k2: Seq<char>, i: int)
    requires
        has_prefix(arg, k1),
        0 <= i < k1.len(),
        i < k2.len(),
        k1[i] != k2[i],
    ensures
        !has_prefix(arg, k2),
{
    assert(arg.take(k1.len() as int)[i] == arg[i]);
    if has_prefix(arg, k2) {
        assert(arg.take(k2.len() as int)[i] == arg[i]);
    }
}

/// An argument that starts with `k` differs from a word `w` that differs
/// from `k` at position `i`.
proof fn lemma_prefix_not_word(arg: Seq<char>, k: Seq<char>, w: Seq<char>, i: int)
    requires
        has_prefix(arg, k),
        0 <= i < k.len(),
        i < w.len(),
        k[i] != w[i],
    ensures
        arg != w,
{
    assert(arg.take(k.len() as int)[i] == arg[i]);
}

/// `key + v` starts with `key`, and what follows the key is `v`.
proof fn lemma_key_value(key: Seq<char>, v: Seq<char>)
    ensures
        has_prefix(key + v, key),
        (key + v).skip(key.len() as int) == v,
{
    assert((key + v).take(key.len() as int) =~= key);
    assert((key + v).skip(key.len() as int) =~= v);
}

/// `threshold=v` adds `v` to the end of the threshold texts and changes
/// nothing else.
pub proof fn lemma_threshold_arg(args: Seq<Seq<char>>, v: Seq<char>)
    ensures
        ({
            let c = config_of(args);
            config_of(args.push("threshold="@ + v)) == ConfigModel {
                threshold_args: c.threshold_args.push(v),
                timeout_secs: c.timeout_secs,
                device: c.device,
                debug: c.debug,
                face_model: c.face_model,
                embed_model: c.embed_model,
                min_uptime_secs: c.min_uptime_secs,
            }
        }),
{
    let arg = "threshold="@ + v;
    assert(args.push(arg).drop_last() == args);
    lemma_key_value("threshold="@, v);
}

/// `timeout=v` sets the timeout to the number `v` when `v` reads as a `u64`,
/// and otherwise changes nothing; no other setting changes.
pub proof fn lemma_timeout_arg(args: Seq<Seq<char>>, v: Seq<char>)
    ensures
        ({
            let c = config_of(args);
            config_of(args.push("timeout="@ + v)) == ConfigModel {
                threshold_args: c.threshold_args,
                timeout_secs: match parse_u64(v) {
                    Some(n) => n,
                    None => c.timeout_secs,
                },
                device: c.device,
                debug: c.debug,
                face_model: c.face_model,
                embed_model: c.embed_model,
                min_uptime_secs: c.min_uptime_secs,
            }
        }),
{
    reveal_strlit("threshold=");
    reveal_strlit("timeout=");
    reveal_strlit("device=");
    reveal_strlit("debug=true");
    reveal_strlit("debug");
    reveal_strlit("face_model=");
    reveal_strlit("embed_model=");
    reveal_strlit("min_uptime=");
    let arg = "timeout="@ + v;
    assert(args.push(arg).drop_last() == args);
    lemma_key_value("timeout="@, v);
    lemma_prefix_excludes(arg, "timeout="@, "threshold="@, 1);
}

/// `device=v` sets the camera device to `v` and changes nothing else.
pub proof fn lemma_device_arg(args: Seq<Seq<char>>, v: Seq<char>)
    ensures
        ({
            let c = config_of(args);
            config_of(args.push("device="@ + v)) == ConfigModel {
                threshold_args: c.threshold_args,
                timeout_secs: c.timeout_secs,
                device: v,
                debug: c.debug,
                face_model: c.face_model,
                embed_model: c.embed_model,
                min_uptime_secs: c.min_uptime_secs,
            }
        }),
{
    reveal_strlit("threshold=");
    reveal_strlit("timeout=");
    reveal_strlit("device=");
    reveal_strlit("debug=true");
    reveal_strlit("debug");
    reveal_strlit("face_model=");
    reveal_strlit("embed_model=");
    reveal_strlit("min_uptime=");
    let arg = "device="@ + v;
    assert(args.push(arg).drop_last() == args);
    lemma_key_value("device="@, v);
    lemma_prefix_excludes(arg, "device="@, "threshold="@, 0);
    lemma_prefix_excludes(arg, "device="@, "timeout="@, 0);
}

/// `debug` and `debug=true` turn on debugging and change nothing else.
pub proof fn lemma_debug_arg(args: Seq<Seq<char>>)
    ensures
        ({
            let c = config_of(args);
            let d = ConfigModel {
                threshold_args: c.threshold_args,
                timeout_secs: c.timeout_secs,
                device: c.device,
                debug: true,
                face_model: c.face_model,
                embed_model: c.embed_model,
                min_uptime_secs: c.min_uptime_secs,
            };
            config_of(args.push("debug"@)) == d && config_of(args.push("debug=true"@)) == d
        }),
{
    reveal_strlit("threshold=");
    reveal_strlit("timeout=");
    reveal_strlit("device=");
    reveal_strlit("debug=true");
    reveal_strlit("debug");
    reveal_strlit("face_model=");
    reveal_strlit("embed_model=");
    reveal_strlit("min_uptime=");
    assert(args.push("debug"@).drop_last() == args);
    assert(args.push("debug=true"@).drop_last() == args);
    lemma_key_value("debug=true"@, Seq::empty());
    assert("debug=true"@ + Seq::<char>::empty() == "debug=true"@);
    lemma_prefix_excludes("debug=true"@, "debug=true"@, "threshold="@, 0);
    lemma_prefix_excludes("debug=true"@, "debug=true"@, "timeout="@, 0);
    lemma_prefix_excludes("debug=true"@, "debug=true"@, "device="@, 2);
}

/// `face_model=v` sets the face detector model to `v` and changes nothing
/// else (in particular not the embedding model).
pub proof fn lemma_face_model_arg(args: Seq<Seq<char>>, v: Seq<char>)
    ensures
        ({
            let c = config_of(args);
            config_of(args.push("face_model="@ + v)) == ConfigModel {
                threshold_args: c.threshold_args,
                timeout_secs: c.timeout_secs,
                device: c.device,
                debug: c.debug,
                face_model: v,
                embed_model: c.embed_model,
                min_uptime_secs: c.min_uptime_secs,
            }
        }),
{
    reveal_strlit("threshold=");
    reveal_strlit("timeout=");
    reveal_strlit("device=");
    reveal_strlit("debug=true");
    reveal_strlit("debug");
    reveal_strlit("face_model=");
    reveal_strlit("embed_model=");
    reveal_strlit("min_uptime=");
    let arg = "face_model="@ + v;
    assert(args.push(arg).drop_last() == args);
    lemma_key_value("face_model="@, v);
    lemma_prefix_excludes(arg, "face_model="@, "threshold="@, 0);
    lemma_prefix_excludes(arg, "face_model="@, "timeout="@, 0);
    lemma_prefix_excludes(arg, "face_model="@, "device="@, 0);
    lemma_prefix_not_word(arg, "face_model="@, "debug=true"@, 0);
    lemma_prefix_not_word(arg, "face_model="@, "debug"@, 0);
}

/// `embed_model=v` sets the embedding model to `v` and changes nothing else
/// (in particular not the face detector model).
pub proof fn lemma_embed_model_arg(args: Seq<Seq<char>>, v: Seq<char>)
    ensures
        ({
            let c = config_of(args);
            config_of(args.push("embed_model="@ + v)) == ConfigModel {
                threshold_args: c.threshold_args,
                timeout_secs: c.timeout_secs,
                device: c.device,
                debug: c.debug,
                face_model: c.face_model,
                embed_model: v,
                min_uptime_secs: c.min_uptime_secs,
            }
        }),
{
    reveal_strlit("threshold=");
    reveal_strlit("timeout=");
    reveal_strlit("device=");
    reveal_strlit("debug=true");
    reveal_strlit("debug");
    reveal_strlit("face_model=");
    reveal_strlit("embed_model=");
    reveal_strlit("min_uptime=");
    let arg = "embed_model="@ + v;
    assert(args.push(arg).drop_last() == args);
    lemma_key_value("embed_model="@, v);
    lemma_prefix_excludes(arg, "embed_model="@, "threshold="@, 0);
    lemma_prefix_excludes(arg, "embed_model="@, "timeout="@, 0);
    lemma_prefix_excludes(arg, "embed_model="@, "device="@, 0);
    lemma_prefix_not_word(arg, "embed_model="@, "debug=true"@, 0);
    lemma_prefix_not_word(arg, "embed_model="@, "debug"@, 0);
    lemma_prefix_excludes(arg, "embed_model="@, "face_model="@, 0);
}

/// `min_uptime=v` sets the minimum uptime to the number `v` when `v` reads
/// as a `u64`, and otherwise changes nothing; no other setting changes.
pub proof fn lemma_min_uptime_arg(args: Seq<Seq<char>>, v: Seq<char>)
    ensures
        ({
            let c = config_of(args);
            config_of(args.push("min_uptime="@ + v)) == ConfigModel {
                threshold_args: c.threshold_args,
                timeout_secs: c.timeout_secs,
                device: c.device,
                debug: c.debug,
                face_model: c.face_model,
                embed_model: c.embed_model,
                min_uptime_secs: match parse_u64(v) {
                    Some(n) => n,
                    None => c.min_uptime_secs,
                },
            }
        }),
{
    reveal_strlit("threshold=");
    reveal_strlit("timeout=");
    reveal_strlit("device=");
    reveal_strlit("debug=true");
    reveal_strlit("debug");
    reveal_strlit("face_model=");
    reveal_strlit("embed_model=");
    reveal_strlit("min_uptime=");
    let arg = "min_uptime="@ + v;
    assert(args.push(arg).drop_last() == args);
    lemma_key_value("min_uptime="@, v);
    lemma_prefix_excludes(arg, "min_uptime="@, "threshold="@, 0);
    lemma_prefix_excludes(arg, "min_uptime="@, "timeout="@, 0);
    lemma_prefix_excludes(arg, "min_uptime="@, "device="@, 0);
    lemma_prefix_not_word(arg, "min_uptime="@, "debug=true"@, 0);
    lemma_prefix_not_word(arg, "min_uptime="@, "debug"@, 0);
    lemma_prefix_excludes(arg, "min_uptime="@, "face_model="@, 0);
    lemma_prefix_excludes(arg, "min_uptime="@, "embed_model="@, 0);
}

/// The settings with no arguments: threshold texts none, timeout 3 seconds,
/// device `/dev/video2`, no debugging, the SeetaFace and ArcFace models under
/// `/etc/rustface/models`, and no minimum uptime.
pub proof fn lemma_defaults()
    ensures
        config_of(Seq::empty()).threshold_args.len() == 0,
        config_of(Seq::empty()).timeout_secs == 3,
        config_of(Seq::empty()).device == "/dev/video2"@,
        !config_of(Seq::empty()).debug,
        config_of(Seq::empty()).face_model == "/etc/rustface/models/seeta_fd_frontal_v1.0.bin"@,
        config_of(Seq::empty()).embed_model == "/etc/rustface/models/arcface.onnx"@,
        config_of(Seq::empty()).min_uptime_secs == 0,
{
}

} // verus!
