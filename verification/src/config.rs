//! Configuration values and the formatting of the printed label.

use crate::text::{blank, capitalize_first, capitalized, from_chars, same_text, spaces, to_chars};
use vstd::prelude::*;

verus! {

/// The window property a display name is taken from.
#[derive(Clone, Copy, Debug, PartialEq, Eq, Structural, Hash, Default)]
pub enum WindowInfoType {
    #[default]
    WmInstance,
    WmClass,
    WmName,
    NetWmName,
    NetWmVisibleName,
}

/// One substitution: a window whose name of kind `info_type` reads `old`
/// is shown as `new`.
#[derive(Debug)]
pub struct SubstituteRule {
    pub info_type: WindowInfoType,
    pub old: String,
    pub new: String,
}

impl Clone for SubstituteRule {
    fn clone(&self) -> (copy: Self)
        ensures
            copy == *self,
    {
        SubstituteRule {
            info_type: self.info_type,
            old: self.old.clone(),
            new: self.new.clone(),
        }
    }
}

/// How the label of a window or of an empty desktop is printed.
#[derive(Debug)]
pub struct PrintInfoSettings {
    /// The kinds of name to try, in this order.
    pub info_types: Vec<WindowInfoType>,
    /// The longest label printed, in characters; `None` leaves it unbounded.
    pub max_len: Option<usize>,
    /// The kinds of name whose first letter is capitalized.
    pub capitalize_first: Vec<WindowInfoType>,
    /// The substitutions; the first rule that fits is applied.
    pub substitute_rules: Vec<SubstituteRule>,
    /// The label of an empty desktop.
    pub empty_info: Option<String>,
}

/// The kinds of name tried when the configuration names none.
pub fn default_info_types() -> (types: Vec<WindowInfoType>)
    ensures
        types@ == seq![WindowInfoType::WmInstance],
{
    let mut types: Vec<WindowInfoType> = Vec::new();
    types.push(WindowInfoType::WmInstance);
    types
}

/// The label of an empty desktop when the configuration names none.
pub fn default_empty_info() -> (label: Option<String>)
    ensures
        label matches Some(text) && text@ == "Empty"@,
{
    Some("Empty".to_owned())
}

/// `s` cut to its first `max_len` characters, where a bound is given.
pub open spec fn truncated(s: Seq<char>, max_len: Option<usize>) -> Seq<char> {
    match max_len {
        Some(m) => if m < s.len() {
            s.take(m as int)
        } else {
            s
        },
        None => s,
    }
}

/// `info` after the first rule in `rules` that is for `info_type` and
/// whose `old` is `info`; `info` itself where no rule fits.
pub open spec fn substituted_by(
    rules: Seq<SubstituteRule>,
    info: Seq<char>,
    info_type: WindowInfoType,
) -> Seq<char>
    decreases rules.len(),
{
    if rules.len() == 0 {
        info
    } else if rule_fits(rules[0], info, info_type) {
        rules[0].new@
    } else {
        substituted_by(rules.skip(1), info, info_type)
    }
}

/// Whether the rule `rule` is for names of kind `info_type` that read
/// `info`.
pub open spec fn rule_fits(rule: SubstituteRule, info: Seq<char>, info_type: WindowInfoType) -> bool {
    rule.info_type == info_type && rule.old@ == info
}

/// No two rules of `rules` fit the same name of the same kind.
pub open spec fn rules_are_distinct(rules: Seq<SubstituteRule>) -> bool {
    forall|i: int, j: int|
        0 <= i < j < rules.len() ==> !rule_fits(
            #[trigger] rules[i],
            (#[trigger] rules[j]).old@,
            rules[j].info_type,
        )
}

/// Where no two rules fit the same name, the order of the rules does
/// not matter: a rule that fits is the rule applied, wherever it stands.
pub proof fn fitting_rule_is_applied(
    rules: Seq<SubstituteRule>,
    info: Seq<char>,
    info_type: WindowInfoType,
    k: int,
)
    requires
        rules_are_distinct(rules),
        0 <= k < rules.len(),
        rule_fits(rules[k], info, info_type),
    ensures
        substituted_by(rules, info, info_type) == rules[k].new@,
    decreases rules.len(),
{
    if k > 0 {
        let rest = rules.skip(1);
        fitting_rule_is_applied(rest, info, info_type, k - 1);
    }
}

/// Where no rule fits, the name stays as it is.
pub proof fn unfitting_rules_keep_name(
    rules: Seq<SubstituteRule>,
    info: Seq<char>,
    info_type: WindowInfoType,
)
    requires
        forall|k: int| 0 <= k < rules.len() ==> !rule_fits(#[trigger] rules[k], info, info_type),
    ensures
        substituted_by(rules, info, info_type) == info,
    decreases rules.len(),
{
    if rules.len() > 0 {
        let rest = rules.skip(1);
        unfitting_rules_keep_name(rest, info, info_type);
    }
}

/// Rules that agree place by place on whether they fit a name, and on
/// what they put in its place where they do, treat the name alike.
proof fn lemma_same_fits_same_substitute(
    first: Seq<SubstituteRule>,
    second: Seq<SubstituteRule>,
    info: Seq<char>,
    info_type: WindowInfoType,
)
    requires
        first.len() == second.len(),
        forall|k: int|
            0 <= k < first.len() ==> (rule_fits(#[trigger] first[k], info, info_type) == rule_fits(
                second[k],
                info,
                info_type,
            )),
        forall|k: int|
            0 <= k < first.len() && rule_fits(#[trigger] first[k], info, info_type)
                ==> first[k].new@ == second[k].new@,
    ensures
        substituted_by(first, info, info_type) == substituted_by(second, info, info_type),
    decreases first.len(),
{
    if first.len() > 0 {
        if !rule_fits(first[0], info, info_type) {
            let a = first.skip(1);
            let b = second.skip(1);
            lemma_same_fits_same_substitute(a, b, info, info_type);
        }
    }
}

/// A rule added at the end changes nothing for the names it does not
/// fit.
proof fn lemma_appended_rule_is_last(
    rules: Seq<SubstituteRule>,
    rule: SubstituteRule,
    info: Seq<char>,
    info_type: WindowInfoType,
)
    requires
        !rule_fits(rule, info, info_type),
    ensures
        substituted_by(rules.push(rule), info, info_type) == substituted_by(
            rules,
            info,
            info_type,
        ),
    decreases rules.len(),
{
    let all = rules.push(rule);
    if rules.len() == 0 {
        assert(substituted_by(all.skip(1), info, info_type) == info);
    } else {
        assert(all.skip(1) =~= rules.skip(1).push(rule));
        lemma_appended_rule_is_last(rules.skip(1), rule, info, info_type);
    }
}

/// Cuts `text` to its first `max_len` characters, where a bound is given.
pub fn truncate_chars(text: String, max_len: Option<usize>) -> (out: String)
    ensures
        out@ == truncated(text@, max_len),
{
    match max_len {
        None => text,
        Some(m) => {
            let chars = to_chars(text.as_str());
            if m < chars.len() {
                let mut kept: Vec<char> = Vec::new();
                let mut i: usize = 0;
                while i < m
                    invariant
                        i <= m < chars.len(),
                        kept@ == chars@.take(i as int),
                    decreases m - i,
                {
                    kept.push(chars[i]);
                    i += 1;
                }
                from_chars(&kept)
            } else {
                text
            }
        },
    }
}

impl PrintInfoSettings {
    /// The settings used when the configuration has no section for them.
    pub fn new() -> (settings: Self)
        ensures
            settings.info_types@ == seq![WindowInfoType::WmInstance],
            settings.max_len is None,
            settings.capitalize_first@.len() == 0,
            settings.substitute_rules@.len() == 0,
            settings.empty_label() == "Empty"@,
    {
        PrintInfoSettings {
            info_types: default_info_types(),
            max_len: None,
            capitalize_first: Vec::new(),
            substitute_rules: Vec::new(),
            empty_info: default_empty_info(),
        }
    }

    /// No two substitution rules speak of the same name of the same kind,
    /// so the order of the rules does not matter.
    pub open spec fn rules_distinct(self) -> bool {
        rules_are_distinct(self.substitute_rules@)
    }

    /// Whether names of kind `info_type` are capitalized.
    pub open spec fn capitalizes(self, info_type: WindowInfoType) -> bool {
        self.capitalize_first@.contains(info_type)
    }

    /// `info` with its first letter capitalized where names of its kind are.
    pub open spec fn capitalized_for(self, info: Seq<char>, info_type: WindowInfoType) -> Seq<
        char,
    > {
        if self.capitalizes(info_type) {
            capitalized(info)
        } else {
            info
        }
    }

    /// The label printed for `info`: capitalized and substituted by the
    /// rules of its kind where a kind is given, then cut to the bound.
    pub open spec fn formatted(self, info: Seq<char>, info_type: Option<WindowInfoType>) -> Seq<
        char,
    > {
        match info_type {
            Some(t) => truncated(
                substituted_by(self.substitute_rules@, self.capitalized_for(info, t), t),
                self.max_len,
            ),
            None => truncated(info, self.max_len),
        }
    }

    /// The label of an empty desktop.
    pub open spec fn empty_label(self) -> Seq<char> {
        match self.empty_info {
            Some(text) => text@,
            None => "Empty"@,
        }
    }

    /// Formats `info` for printing. With a kind given, the first letter is
    /// capitalized if the kind asks for it and the substitution rules of
    /// the kind are applied; the result is cut to `max_len` characters.
    pub fn format_info(&self, info: &str, info_type_format: Option<WindowInfoType>) -> (out:
        String)
        ensures
            out@ == self.formatted(info@, info_type_format),
    {
        let formatted_info = match info_type_format {
            Some(info_type) => {
                let capital = self.capitalize_first(info, info_type);
                self.apply_substitute_rules(capital.as_str(), info_type)
            },
            None => info.to_owned(),
        };
        truncate_chars(formatted_info, self.max_len)
    }

    /// Replaces `info` by what the first fitting rule of its kind says.
    pub fn apply_substitute_rules(&self, info: &str, info_type: WindowInfoType) -> (out: String)
        ensures
            out@ == substituted_by(self.substitute_rules@, info@, info_type),
    {
        let mut i: usize = 0;
        assert(self.substitute_rules@.skip(0) == self.substitute_rules@);
        while i < self.substitute_rules.len()
            invariant
                i <= self.substitute_rules.len(),
                substituted_by(self.substitute_rules@, info@, info_type) == substituted_by(
                    self.substitute_rules@.skip(i as int),
                    info@,
                    info_type,
                ),
            decreases self.substitute_rules.len() - i,
        {
            let rule = &self.substitute_rules[i];
            assert(self.substitute_rules@.skip(i as int).skip(1) == self.substitute_rules@.skip(
                i + 1,
            ));
            if rule.info_type == info_type && same_text(rule.old.as_str(), info) {
                return rule.new.clone();
            }
            i += 1;
        }
        info.to_owned()
    }

    /// Capitalizes the first letter of `info` if names of kind `info_type`
    /// are to be capitalized.
    pub fn capitalize_first(&self, info: &str, info_type: WindowInfoType) -> (out: String)
        ensures
            out@ == self.capitalized_for(info@, info_type),
    {
        if contains_type(&self.capitalize_first, info_type) {
            capitalize_first(info)
        } else {
            info.to_owned()
        }
    }

    /// Sets the substitution for names of kind `info_type` that read
    /// `name`: a rule that is there for them is changed, else a rule is
    /// added. Rules that were distinct stay distinct.
    pub fn set_substitute_rule(&mut self, info_type: WindowInfoType, name: String, shown: String)
        ensures
            final(self).info_types == old(self).info_types,
            final(self).max_len == old(self).max_len,
            final(self).capitalize_first == old(self).capitalize_first,
            final(self).empty_info == old(self).empty_info,
            old(self).rules_distinct() ==> final(self).rules_distinct(),
            old(self).rules_distinct() ==> substituted_by(
                final(self).substitute_rules@,
                name@,
                info_type,
            ) == shown@,
            forall|info: Seq<char>, t: WindowInfoType|
                !(t == info_type && info == name@) ==> substituted_by(
                    final(self).substitute_rules@,
                    info,
                    t,
                ) == substituted_by(old(self).substitute_rules@, info, t),
    {
        let ghost before = self.substitute_rules@;
        let mut i: usize = 0;
        while i < self.substitute_rules.len()
            invariant
                i <= self.substitute_rules@.len(),
                self.substitute_rules@ == before,
                *self == *old(self),
                forall|k: int| 0 <= k < i ==> !rule_fits(#[trigger] before[k], name@, info_type),
            decreases self.substitute_rules@.len() - i,
        {
            if self.substitute_rules[i].info_type == info_type && same_text(
                self.substitute_rules[i].old.as_str(),
                name.as_str(),
            ) {
                let rule = SubstituteRule { info_type, old: name, new: shown };
                self.substitute_rules.set(i, rule);
                proof {
                    let after = self.substitute_rules@;
                    if rules_are_distinct(before) {
                        fitting_rule_is_applied(after, name@, info_type, i as int);
                    }
                    assert forall|info: Seq<char>, t: WindowInfoType|
                        !(t == info_type && info == name@) implies substituted_by(after, info, t)
                        == substituted_by(before, info, t) by {
                        lemma_same_fits_same_substitute(before, after, info, t);
                    }
                }
                return ;
            }
            i += 1;
        }
        self.substitute_rules.push(SubstituteRule { info_type, old: name, new: shown });
        proof {
            let after = self.substitute_rules@;
            if rules_are_distinct(before) {
                fitting_rule_is_applied(after, name@, info_type, before.len() as int);
            }
            assert forall|info: Seq<char>, t: WindowInfoType|
                !(t == info_type && info == name@) implies substituted_by(after, info, t)
                == substituted_by(before, info, t) by {
                lemma_appended_rule_is_last(before, after[before.len() as int], info, t);
            }
        }
    }

    /// The label of an empty desktop: the configured one, else `Empty`.
    pub fn get_empty_desk_info(&self) -> (label: &str)
        ensures
            label@ == self.empty_label(),
    {
        match &self.empty_info {
            Some(x) => x.as_str(),
            None => "Empty",
        }
    }
}

impl Clone for PrintInfoSettings {
    fn clone(&self) -> (copy: Self)
        ensures
            copy.info_types@ == self.info_types@,
            copy.max_len == self.max_len,
            copy.capitalize_first@ == self.capitalize_first@,
            copy.substitute_rules@ == self.substitute_rules@,
            copy.empty_info == self.empty_info,
    {
        let mut rules: Vec<SubstituteRule> = Vec::new();
        let mut i: usize = 0;
        while i < self.substitute_rules.len()
            invariant
                i <= self.substitute_rules.len(),
                rules@ == self.substitute_rules@.take(i as int),
            decreases self.substitute_rules.len() - i,
        {
            rules.push(self.substitute_rules[i].clone());
            i += 1;
        }
        PrintInfoSettings {
            info_types: copy_types(&self.info_types),
            max_len: self.max_len,
            capitalize_first: copy_types(&self.capitalize_first),
            substitute_rules: rules,
            empty_info: match &self.empty_info {
                Some(text) => Some(text.clone()),
                None => None,
            },
        }
    }
}

/// Whether `info_type` occurs in `types`.
pub fn contains_type(types: &Vec<WindowInfoType>, info_type: WindowInfoType) -> (found: bool)
    ensures
        found == types@.contains(info_type),
{
    let mut i: usize = 0;
    while i < types.len()
        invariant
            i <= types.len(),
            forall|k: int| 0 <= k < i ==> types@[k] != info_type,
        decreases types.len() - i,
    {
        if types[i] == info_type {
            return true;
        }
        i += 1;
    }
    false
}

/// A copy of a list of kinds.
pub fn copy_types(types: &Vec<WindowInfoType>) -> (copy: Vec<WindowInfoType>)
    ensures
        copy@ == types@,
{
    let mut copy: Vec<WindowInfoType> = Vec::new();
    let mut i: usize = 0;
    while i < types.len()
        invariant
            i <= types.len(),
            copy@ == types@.take(i as int),
        decreases types.len() - i,
    {
        copy.push(types[i]);
        i += 1;
    }
    copy
}

/// What both window managers' configurations share.
#[derive(Debug)]
pub struct CommonConfig {
    /// The number of spaces printed before the label.
    pub gap: u16,
    pub x: i16,
    pub y: i16,
    pub size: u16,
    pub cache_dir: String,
    /// The background colour of the bar, as `#rrggbb`.
    pub color: String,
    pub print_info_settings: PrintInfoSettings,
}

impl CommonConfig {
    /// The gap printed before the label, as text.
    pub fn gap(&self) -> (text: String)
        ensures
            text@ == spaces(self.gap as nat),
    {
        blank(self.gap)
    }

    pub fn color(&self) -> (color: &str)
        ensures
            color@ == self.color@,
    {
        self.color.as_str()
    }

    pub fn cache_dir(&self) -> (dir: &str)
        ensures
            dir@ == self.cache_dir@,
    {
        self.cache_dir.as_str()
    }

    pub fn x(&self) -> (x: i16)
        ensures
            x == self.x,
    {
        self.x
    }

    pub fn y(&self) -> (y: i16)
        ensures
            y == self.y,
    {
        self.y
    }

    pub fn size(&self) -> (size: u16)
        ensures
            size == self.size,
    {
        self.size
    }

    pub fn print_info_settings(&self) -> (settings: &PrintInfoSettings)
        ensures
            *settings == self.print_info_settings,
    {
        &self.print_info_settings
    }

    /// The line printed for a label: the gap, then the label.
    pub open spec fn line(self, label: Seq<char>) -> Seq<char> {
        spaces(self.gap as nat) + label
    }
}

/// The configuration of the bspwm variant.
#[derive(Debug)]
pub struct BspwmConfig {
    pub common_config: CommonConfig,
}

impl BspwmConfig {
    pub fn common_config(&self) -> (common: &CommonConfig)
        ensures
            *common == self.common_config,
    {
        &self.common_config
    }
}

/// The directory that holds the configuration: `$XDG_CONFIG_HOME`
/// where it is set and not empty, else `.config` under `$HOME`.
pub open spec fn config_dir(xdg_config_home: Option<Seq<char>>, home: Option<Seq<char>>) -> Option<
    Seq<char>,
> {
    match xdg_config_home {
        Some(dir) if dir.len() > 0 => Some(dir),
        _ => match home {
            Some(h) => Some(h + "/.config"@),
            None => None,
        },
    }
}

/// The place of the configuration file where none is named:
/// `ixwindow/ixwindow.toml` under the configuration directory. `None`
/// where neither `$XDG_CONFIG_HOME` nor `$HOME` tells the directory.
pub fn default_config_file(xdg_config_home: Option<&str>, home: Option<&str>) -> (file: Option<
    String,
>)
    ensures
        match config_dir(
            match xdg_config_home {
                Some(d) => Some(d@),
                None => None,
            },
            match home {
                Some(h) => Some(h@),
                None => None,
            },
        ) {
            Some(dir) => file matches Some(f) && f@ == dir + "/ixwindow/ixwindow.toml"@,
            None => file is None,
        },
{
    let dir = match xdg_config_home {
        Some(d) if d.unicode_len() > 0 => d.to_owned(),
        _ => match home {
            Some(h) => h.to_owned().concat("/.config"),
            None => {
                return None;
            },
        },
    };
    Some(dir.concat("/ixwindow/ixwindow.toml"))
}

} // verus!
