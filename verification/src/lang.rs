//! The strings of the user interface, in English and in Chinese, and the choice
//! between the two by a language code.

use vstd::prelude::*;
use vstd::string::{StrSliceExecFns, StringExecFns};

verus! {

/// The strings of the user interface in one language. A `{}` in a string marks a
/// place for a value.
#[derive(Clone, Copy)]
pub struct Assets {
    // The menu.
    pub menu_help: &'static str,
    pub menu_new: &'static str,
    pub menu_records: &'static str,
    pub menu_difficulty: &'static str,
    pub menu_options: &'static str,
    pub menu_about: &'static str,
    pub menu_exit: &'static str,
    // The names of the difficulties.
    pub diff_beginner: &'static str,
    pub diff_intermediate: &'static str,
    pub diff_expert: &'static str,
    pub diff_custom: &'static str,
    // The labels of the custom board form.
    pub diff_width_label: &'static str,
    pub diff_height_label: &'static str,
    pub diff_mines_label_fmt: &'static str,
    pub diff_mines_ncnt: &'static str,
    // The options.
    pub opt_show_indicator: &'static str,
    pub opt_use_question: &'static str,
    pub opt_ascii_icons: &'static str,
    pub opt_language: &'static str,
    // The help page.
    pub help_controls: &'static str,
    pub help_move: &'static str,
    pub help_reveal: &'static str,
    pub help_flag: &'static str,
    pub help_chord: &'static str,
    // The records page.
    pub rec_best_time: &'static str,
    pub rec_no_record: &'static str,
    // The banners at the end of a game.
    pub win_title: &'static str,
    pub win_message: &'static str,
    pub win_time_fmt: &'static str,
    pub win_time_record_fmt: &'static str,
    pub loss_title: &'static str,
    pub loss_message: &'static str,
    pub loss_better_luck: &'static str,
    // The about page.
    pub about_description: &'static str,
    pub about_version_fmt: &'static str,
    // The status bar.
    pub status_mines_fmt: &'static str,
    // The buttons.
    pub btn_ok: &'static str,
    pub btn_close: &'static str,
    pub btn_yes: &'static str,
    pub btn_no: &'static str,
    // The questions asked before a game in progress is given up.
    pub confirm_in_game: &'static str,
    pub confirm_exit: &'static str,
    pub confirm_new: &'static str,
    pub confirm_difficulty: &'static str,
    // The warning shown on a terminal that is too small.
    pub tsmsg_line1: &'static str,
    pub tsmsg_line2: &'static str,
    pub tsmsg_title: &'static str,
    // The names of the languages.
    pub lang_english: &'static str,
    pub lang_chinese: &'static str,
}

/// The English strings.
pub open spec fn english_table() -> Assets {
    Assets {
        menu_help: "Help",
        menu_new: "New",
        menu_records: "Records",
        menu_difficulty: "Difficulty",
        menu_options: "Options",
        menu_about: "About",
        menu_exit: "Exit",
        diff_beginner: "Beginner",
        diff_intermediate: "Intermediate",
        diff_expert: "Expert",
        diff_custom: "Custom",
        diff_width_label: "Width (9-36):",
        diff_height_label: "Height (9-24):",
        diff_mines_label_fmt: "Mines (10-{}):",
        diff_mines_ncnt: "mines",
        opt_show_indicator: "Show indicator",
        opt_use_question: "Use ? marks",
        opt_ascii_icons: "ASCII icons",
        opt_language: "🌐 Language",
        help_controls: " Controls:",
        help_move: "  Mouse | Arrows    - move cursor",
        help_reveal: "  L-Click | Space   - reveal",
        help_flag: "  R-Click | F       - toggle flag",
        help_chord: "  L+R-Click | Enter - chord (open neighbors)",
        rec_best_time: " Best time in seconds:",
        rec_no_record: "-",
        win_title: "Success",
        win_message: "Mines Cleared — You Win!",
        win_time_fmt: "Time: {} seconds",
        win_time_record_fmt: "Time: {} seconds (New Record!)",
        loss_title: "Failure",
        loss_message: "Mine Exploded — You Lose!",
        loss_better_luck: "Better luck next time.",
        about_description: "A terminal-based classic Minesweeper game",
        about_version_fmt: "v{} by {}",
        status_mines_fmt: " Mines: {}   Time: {} seconds ",
        btn_ok: " OK ",
        btn_close: " CLOSE ",
        btn_yes: " Yes ",
        btn_no: " No ",
        confirm_in_game: "Game in progress",
        confirm_exit: "Confirm exit?",
        confirm_new: "Start new one?",
        confirm_difficulty: "Start new with specified difficulty?",
        tsmsg_line1: "Terminal layout too small",
        tsmsg_line2: "Minimum size required: {} x {}",
        tsmsg_title: "Resize needed",
        lang_english: "English",
        lang_chinese: "中文",
    }
}

/// The Chinese strings.
pub open spec fn chinese_table() -> Assets {
    Assets {
        menu_help: "帮助",
        menu_new: "新游戏",
        menu_records: "纪录",
        menu_difficulty: "难度",
        menu_options: "选项",
        menu_about: "关于",
        menu_exit: "退出",
        diff_beginner: "初级",
        diff_intermediate: "中级",
        diff_expert: "高级",
        diff_custom: "自定义",
        diff_width_label: "宽度 (9-36):",
        diff_height_label: "高度 (9-24):",
        diff_mines_label_fmt: "地雷 (10-{}):",
        diff_mines_ncnt: "个雷",
        opt_show_indicator: "显示游标",
        opt_use_question: "使用问号",
        opt_ascii_icons: "ASCII图标",
        opt_language: "🌐 语言",
        help_controls: " 操作说明：",
        help_move: "  鼠标 | 方向键     - 移动光标",
        help_reveal: "  左键 | 空格       - 翻开",
        help_flag: "  右键 | F          - 标记/取消",
        help_chord: "  双键 | 回车       - 组合排雷（开邻近格子）",
        rec_best_time: " 最佳时间（秒）：",
        rec_no_record: "-",
        win_title: "成功",
        win_message: "地雷已清除 — 你赢了！",
        win_time_fmt: "用时：{} 秒",
        win_time_record_fmt: "用时：{} 秒（新纪录！）",
        loss_title: "失败",
        loss_message: "地雷爆炸 — 你输了！",
        loss_better_luck: "祝下次好运。",
        about_description: "一款基于终端的经典扫雷游戏",
        about_version_fmt: "v{} 作者 {}",
        status_mines_fmt: " 地雷：{}   时间：{} 秒 ",
        btn_ok: " 确定 ",
        btn_close: " 关闭 ",
        btn_yes: " 是 ",
        btn_no: " 否 ",
        confirm_in_game: "游戏正在进行中",
        confirm_exit: "确认退出吗？",
        confirm_new: "重开一局吗？",
        confirm_difficulty: "以指定难度重开吗？",
        tsmsg_line1: "终端屏幕布局过小",
        tsmsg_line2: "最小需要尺寸：{} x {}",
        tsmsg_title: "需要调整大小",
        lang_english: "English",
        lang_chinese: "中文",
    }
}

/// The strings of the user interface in English.
pub fn english_assets() -> (assets: Assets)
    ensures
        assets == english_table(),
{
    Assets {
        menu_help: "Help",
        menu_new: "New",
        menu_records: "Records",
        menu_difficulty: "Difficulty",
        menu_options: "Options",
        menu_about: "About",
        menu_exit: "Exit",
        diff_beginner: "Beginner",
        diff_intermediate: "Intermediate",
        diff_expert: "Expert",
        diff_custom: "Custom",
        diff_width_label: "Width (9-36):",
        diff_height_label: "Height (9-24):",
        diff_mines_label_fmt: "Mines (10-{}):",
        diff_mines_ncnt: "mines",
        opt_show_indicator: "Show indicator",
        opt_use_question: "Use ? marks",
        opt_ascii_icons: "ASCII icons",
        opt_language: "🌐 Language",
        help_controls: " Controls:",
        help_move: "  Mouse | Arrows    - move cursor",
        help_reveal: "  L-Click | Space   - reveal",
        help_flag: "  R-Click | F       - toggle flag",
        help_chord: "  L+R-Click | Enter - chord (open neighbors)",
        rec_best_time: " Best time in seconds:",
        rec_no_record: "-",
        win_title: "Success",
        win_message: "Mines Cleared — You Win!",
        win_time_fmt: "Time: {} seconds",
        win_time_record_fmt: "Time: {} seconds (New Record!)",
        loss_title: "Failure",
        loss_message: "Mine Exploded — You Lose!",
        loss_better_luck: "Better luck next time.",
        about_description: "A terminal-based classic Minesweeper game",
        about_version_fmt: "v{} by {}",
        status_mines_fmt: " Mines: {}   Time: {} seconds ",
        btn_ok: " OK ",
        btn_close: " CLOSE ",
        btn_yes: " Yes ",
        btn_no: " No ",
        confirm_in_game: "Game in progress",
        confirm_exit: "Confirm exit?",
        confirm_new: "Start new one?",
        confirm_difficulty: "Start new with specified difficulty?",
        tsmsg_line1: "Terminal layout too small",
        tsmsg_line2: "Minimum size required: {} x {}",
        tsmsg_title: "Resize needed",
        lang_english: "English",
        lang_chinese: "中文",
    }
}

/// The strings of the user interface in Chinese.
pub fn chinese_assets() -> (assets: Assets)
    ensures
        assets == chinese_table(),
{
    Assets {
        menu_help: "帮助",
        menu_new: "新游戏",
        menu_records: "纪录",
        menu_difficulty: "难度",
        menu_options: "选项",
        menu_about: "关于",
        menu_exit: "退出",
        diff_beginner: "初级",
        diff_intermediate: "中级",
        diff_expert: "高级",
        diff_custom: "自定义",
        diff_width_label: "宽度 (9-36):",
        diff_height_label: "高度 (9-24):",
        diff_mines_label_fmt: "地雷 (10-{}):",
        diff_mines_ncnt: "个雷",
        opt_show_indicator: "显示游标",
        opt_use_question: "使用问号",
        opt_ascii_icons: "ASCII图标",
        opt_language: "🌐 语言",
        help_controls: " 操作说明：",
        help_move: "  鼠标 | 方向键     - 移动光标",
        help_reveal: "  左键 | 空格       - 翻开",
        help_flag: "  右键 | F          - 标记/取消",
        help_chord: "  双键 | 回车       - 组合排雷（开邻近格子）",
        rec_best_time: " 最佳时间（秒）：",
        rec_no_record: "-",
        win_title: "成功",
        win_message: "地雷已清除 — 你赢了！",
        win_time_fmt: "用时：{} 秒",
        win_time_record_fmt: "用时：{} 秒（新纪录！）",
        loss_title: "失败",
        loss_message: "地雷爆炸 — 你输了！",
        loss_better_luck: "祝下次好运。",
        about_description: "一款基于终端的经典扫雷游戏",
        about_version_fmt: "v{} 作者 {}",
        status_mines_fmt: " 地雷：{}   时间：{} 秒 ",
        btn_ok: " 确定 ",
        btn_close: " 关闭 ",
        btn_yes: " 是 ",
        btn_no: " 否 ",
        confirm_in_game: "游戏正在进行中",
        confirm_exit: "确认退出吗？",
        confirm_new: "重开一局吗？",
        confirm_difficulty: "以指定难度重开吗？",
        tsmsg_line1: "终端屏幕布局过小",
        tsmsg_line2: "最小需要尺寸：{} x {}",
        tsmsg_title: "需要调整大小",
        lang_english: "English",
        lang_chinese: "中文",
    }
}

/// Whether a language code asks for Chinese: it starts with `zh`, in either case.
pub open spec fn is_chinese_code(code: Seq<char>) -> bool {
    &&& code.len() >= 2
    &&& (code[0] == 'z' || code[0] == 'Z')
    &&& (code[1] == 'h' || code[1] == 'H')
}

/// The code of the language that the interface takes for a language code: Chinese
/// where the code asks for it, English for every other.
pub open spec fn language_of(code: Seq<char>) -> Seq<char> {
    if is_chinese_code(code) {
        "zh"@
    } else {
        "en"@
    }
}

/// The strings that the interface takes for a language code.
pub open spec fn assets_of(code: Seq<char>) -> Assets {
    if is_chinese_code(code) {
        chinese_table()
    } else {
        english_table()
    }
}

/// Whether a language code asks for Chinese.
pub fn asks_for_chinese(code: &str) -> (chinese: bool)
    ensures
        chinese == is_chinese_code(code@),
{
    if code.unicode_len() < 2 {
        return false;
    }
    let first = code.get_char(0);
    let second = code.get_char(1);
    (first == 'z' || first == 'Z') && (second == 'h' || second == 'H')
}

/// The place of the first `-` in `s` at or after `from`, or the length of `s`
/// where there is none.
pub open spec fn find_dash(s: Seq<char>, from: int) -> int
    decreases s.len() - from,
{
    if from >= s.len() {
        s.len() as int
    } else if s[from] == '-' {
        from
    } else {
        find_dash(s, from + 1)
    }
}

/// A date as the interface shows it. A string of three parts held apart by two `-`,
/// year, month and day, is shown as month, day and year with `/` between them in
/// English, and as year, month and day with their Chinese units in Chinese. Any
/// other string is shown as it is.
pub open spec fn shown_date(chinese: bool, iso: Seq<char>) -> Seq<char> {
    let first = find_dash(iso, 0);
    let second = find_dash(iso, first + 1);
    let third = find_dash(iso, second + 1);
    if first < iso.len() && second < iso.len() && third >= iso.len() {
        let year = iso.subrange(0, first);
        let month = iso.subrange(first + 1, second);
        let day = iso.subrange(second + 1, iso.len() as int);
        if chinese {
            year + "年"@ + month + "月"@ + day + "日"@
        } else {
            month + "/"@ + day + "/"@ + year
        }
    } else {
        iso
    }
}

/// The place of the first `-` in `s` at or after `from`, or `len`, the length of
/// `s`, where there is none.
fn next_dash(s: &str, from: usize, len: usize) -> (at: usize)
    requires
        len == s@.len(),
    ensures
        at == find_dash(s@, from as int),
        from <= len ==> from <= at <= len,
        at < len ==> s@[at as int] == '-',
    decreases len - from,
{
    if from >= len {
        len
    } else if s.get_char(from) == '-' {
        from
    } else {
        next_dash(s, from + 1, len)
    }
}

/// The language of the interface: its code and its strings.
pub struct Lang {
    /// `zh` or `en`.
    pub current_lang: String,
    pub assets: Assets,
}

impl Lang {
    /// The interface in the language that `lang_code` asks for: Chinese for a code
    /// that starts with `zh`, such as `zh-CN`, English for every other.
    pub fn new(lang_code: &str) -> (lang: Lang)
        ensures
            lang.current_lang@ == language_of(lang_code@),
            lang.assets == assets_of(lang_code@),
    {
        if asks_for_chinese(lang_code) {
            Lang { current_lang: String::from_str("zh"), assets: chinese_assets() }
        } else {
            Lang { current_lang: String::from_str("en"), assets: english_assets() }
        }
    }

    /// Changes the language to the one that `lang_code` asks for, code and strings
    /// together.
    pub fn switch_to(&mut self, lang_code: &str)
        ensures
            final(self).current_lang@ == language_of(lang_code@),
            final(self).assets == assets_of(lang_code@),
    {
        if asks_for_chinese(lang_code) {
            self.current_lang = String::from_str("zh");
            self.assets = chinese_assets();
        } else {
            self.current_lang = String::from_str("en");
            self.assets = english_assets();
        }
    }

    /// The name of the difficulty with this index: beginner, intermediate, expert,
    /// and custom for three and above.
    pub fn diff_name(&self, index: usize) -> (name: &'static str)
        ensures
            name == if index == 0 {
                self.assets.diff_beginner
            } else if index == 1 {
                self.assets.diff_intermediate
            } else if index == 2 {
                self.assets.diff_expert
            } else {
                self.assets.diff_custom
            },
    {
        match index {
            0 => self.assets.diff_beginner,
            1 => self.assets.diff_intermediate,
            2 => self.assets.diff_expert,
            _ => self.assets.diff_custom,
        }
    }

    /// The names of the four difficulties, by index.
    pub fn diff_names(&self) -> (names: [&'static str; 4])
        ensures
            names@ == seq![
                self.assets.diff_beginner,
                self.assets.diff_intermediate,
                self.assets.diff_expert,
                self.assets.diff_custom,
            ],
    {
        let names = [
            self.assets.diff_beginner,
            self.assets.diff_intermediate,
            self.assets.diff_expert,
            self.assets.diff_custom,
        ];
        assert(names@ =~= seq![
            self.assets.diff_beginner,
            self.assets.diff_intermediate,
            self.assets.diff_expert,
            self.assets.diff_custom,
        ]);
        names
    }

    /// Whether the language is Chinese.
    pub fn is_chinese(&self) -> (chinese: bool)
        ensures
            chinese == (self.current_lang@ == "zh"@),
    {
        proof {
            reveal_strlit("zh");
        }
        let code = self.current_lang.as_str();
        let chinese = code.unicode_len() == 2 && code.get_char(0) == 'z' && code.get_char(1) == 'h';
        assert(chinese ==> code@ =~= "zh"@);
        chinese
    }

    /// A date of the form year-month-day as this language writes it; any other
    /// string as it is.
    pub fn format_date(&self, iso_date: &str) -> (shown: String)
        ensures
            shown@ == shown_date(self.current_lang@ == "zh"@, iso_date@),
    {
        let len = iso_date.unicode_len();
        let first = next_dash(iso_date, 0, len);
        if first >= len {
            return String::from_str(iso_date);
        }
        let second = next_dash(iso_date, first + 1, len);
        if second >= len {
            return String::from_str(iso_date);
        }
        let third = next_dash(iso_date, second + 1, len);
        if third < len {
            return String::from_str(iso_date);
        }
        let year = iso_date.substring_char(0, first);
        let month = iso_date.substring_char(first + 1, second);
        let day = iso_date.substring_char(second + 1, len);
        if self.is_chinese() {
            let mut shown = String::from_str(year);
            shown.append("年");
            shown.append(month);
            shown.append("月");
            shown.append(day);
            shown.append("日");
            shown
        } else {
            let mut shown = String::from_str(month);
            shown.append("/");
            shown.append(day);
            shown.append("/");
            shown.append(year);
            shown
        }
    }
}

} // verus!
