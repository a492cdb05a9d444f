//! The interface text, in English, Chinese and Japanese.
use vstd::prelude::*;

verus! {

/// A piece of interface text.
#[derive(Clone, Copy, Debug, PartialEq, Eq, Structural)]
pub enum Message {
    TrayReload,
    TrayImport,
    TrayPolling,
    TrayStartup,
    TraySettings,
    TrayExit,
    SettingsTitle,
    LblInterval,
    LblLang,
    BtnSave,
    MsgInstallSuccess,
    MsgInstallFail,
    MsgDispwinMissing,
    MsgSelectProfile,
    WizTitle,
    WizLblLang,
    WizWelcome,
    WizBtnImport,
    WizBtnSkip,
    WizBtnNext,
    WizCongrats,
    WizChkStartup,
    WizBtnFinish,
    WizTitleWelcome,
    WizStep1Title,
    WizStep1Desc,
    WizStep1NoProfile,
    WizStep1Profile,
    WizStep2Title,
    WizBtnBack,
    WizBtnCancel,
}

/// The English, Chinese and Japanese wording of a message.
pub open spec fn wording(id: Message) -> (Seq<char>, Seq<char>, Seq<char>) {
    match id {
        Message::TrayReload => ("Reload Calibration"@, "重新加载校准"@, "キャリブレーションを再読み込み"@),
        Message::TrayImport => ("Import ICC Profile..."@, "导入 ICC 配置文件..."@, "ICCプロファイルをインポート..."@),
        Message::TrayPolling => ("Enable Auto-Reload (Polling)"@, "启用自动重新加载 (轮询)"@, "自動再読み込みを有効化 (ポーリング)"@),
        Message::TrayStartup => ("Run at Startup"@, "开机启动"@, "スタートアップに登録"@),
        Message::TraySettings => ("Settings..."@, "设置..."@, "設定..."@),
        Message::TrayExit => ("Exit"@, "退出"@, "終了"@),
        Message::SettingsTitle => ("Settings"@, "设置"@, "設定"@),
        Message::LblInterval => ("Polling Interval (seconds):"@, "轮询间隔 (秒):"@, "ポーリング間隔 (秒):"@),
        Message::LblLang => ("Language:"@, "语言:"@, "言語:"@),
        Message::BtnSave => ("Save"@, "保存"@, "保存"@),
        Message::MsgInstallSuccess => ("Profile installed and loaded successfully."@, "配置文件已安装并加载成功。"@, "プロファイルが正常にインストールされ、読み込まれました。"@),
        Message::MsgInstallFail => ("Failed to install profile."@, "安装配置文件失败。"@, "プロファイルのインストールに失敗しました。"@),
        Message::MsgDispwinMissing => ("Could not find dispwin.exe"@, "未找到 dispwin.exe"@, "dispwin.exe が見つかりません"@),
        Message::MsgSelectProfile => ("Select ICC Profile"@, "选择 ICC 配置文件"@, "ICCプロファイルを選択"@),
        Message::WizTitle => ("Icc Auto Reloader - Setup Wizard"@, "Icc Auto Reloader - 设置向导"@, "Icc Auto Reloader - セットアップウィザード"@),
        Message::WizLblLang => ("Please select your language:"@, "请选择界面语言:"@, "言語を選択してください:"@),
        Message::WizWelcome => ("Welcome!\n\nPlease import an ICC profile to get started.\nThis ensures your display colors remain accurate."@, "欢迎！\n\n请导入一个 ICC 配置文件以开始使用。\n这将确保您的显示器颜色始终准确。"@, "ようこそ！\n\n開始するには ICC プロファイルをインポートしてください。\nこれにより、モニターの色が常に正確に保たれます。"@),
        Message::WizBtnImport => ("Import"@, "导入"@, "インポート"@),
        Message::WizBtnSkip => ("Skip"@, "跳过"@, "スキップ"@),
        Message::WizBtnNext => ("Next >"@, "下一步 >"@, "次へ >"@),
        Message::WizCongrats => ("Congratulations! You are all set.\n\nIcc Auto Reloader will run in the background\nand protect your calibration."@, "恭喜！设置已完成。\n\nIcc Auto Reloader 将在后台运行并保护您的校准。"@, "おめでとうございます！準備が完了しました。\n\nIcc Auto Reloader はバックグラウンドで実行され、\nキャリブレーションを保護します。"@),
        Message::WizChkStartup => ("Run at startup"@, "开机时自动运行"@, "スタートアップ時に実行"@),
        Message::WizBtnFinish => ("Finish"@, "完成"@, "完了"@),
        Message::WizTitleWelcome => ("Welcome"@, "欢迎"@, "ようこそ"@),
        Message::WizStep1Title => ("Import ICC Profile"@, "导入 ICC 配置文件"@, "ICCプロファイルをインポート"@),
        Message::WizStep1Desc => ("Select an ICC profile, or skip to use the Windows default profile."@, "选择一个ICC配置文件，或跳过以使用Windows已安装的配置文件。"@, "ICCプロファイルを選択するか、スキップしてWindowsのデフォルトプロファイルを使用します。"@),
        Message::WizStep1NoProfile => ("No profile selected (Windows default will be used)"@, "未选择配置文件（将使用Windows默认）"@, "プロファイル未選択（Windowsのデフォルトを使用）"@),
        Message::WizStep1Profile => ("Profile: "@, "配置文件: "@, "プロファイル: "@),
        Message::WizStep2Title => ("Setup Complete!"@, "设置完成！"@, "セットアップ完了！"@),
        Message::WizBtnBack => ("< Back"@, "< 返回"@, "< 戻る"@),
        Message::WizBtnCancel => ("Cancel"@, "取消"@, "キャンセル"@),
    }
}

/// The wording of a message in a language: 1 is Chinese, 2 is Japanese, and
/// every other index is English.
pub open spec fn text_of(lang: u32, id: Message) -> Seq<char> {
    if lang == 1 {
        wording(id).1
    } else if lang == 2 {
        wording(id).2
    } else {
        wording(id).0
    }
}

fn wording_of(id: Message) -> (r: (&'static str, &'static str, &'static str))
    ensures
        (r.0@, r.1@, r.2@) == wording(id),
{
    match id {
        Message::TrayReload => ("Reload Calibration", "重新加载校准", "キャリブレーションを再読み込み"),
        Message::TrayImport => ("Import ICC Profile...", "导入 ICC 配置文件...", "ICCプロファイルをインポート..."),
        Message::TrayPolling => ("Enable Auto-Reload (Polling)", "启用自动重新加载 (轮询)", "自動再読み込みを有効化 (ポーリング)"),
        Message::TrayStartup => ("Run at Startup", "开机启动", "スタートアップに登録"),
        Message::TraySettings => ("Settings...", "设置...", "設定..."),
        Message::TrayExit => ("Exit", "退出", "終了"),
        Message::SettingsTitle => ("Settings", "设置", "設定"),
        Message::LblInterval => ("Polling Interval (seconds):", "轮询间隔 (秒):", "ポーリング間隔 (秒):"),
        Message::LblLang => ("Language:", "语言:", "言語:"),
        Message::BtnSave => ("Save", "保存", "保存"),
        Message::MsgInstallSuccess => ("Profile installed and loaded successfully.", "配置文件已安装并加载成功。", "プロファイルが正常にインストールされ、読み込まれました。"),
        Message::MsgInstallFail => ("Failed to install profile.", "安装配置文件失败。", "プロファイルのインストールに失敗しました。"),
        Message::MsgDispwinMissing => ("Could not find dispwin.exe", "未找到 dispwin.exe", "dispwin.exe が見つかりません"),
        Message::MsgSelectProfile => ("Select ICC Profile", "选择 ICC 配置文件", "ICCプロファイルを選択"),
        Message::WizTitle => ("Icc Auto Reloader - Setup Wizard", "Icc Auto Reloader - 设置向导", "Icc Auto Reloader - セットアップウィザード"),
        Message::WizLblLang => ("Please select your language:", "请选择界面语言:", "言語を選択してください:"),
        Message::WizWelcome => ("Welcome!\n\nPlease import an ICC profile to get started.\nThis ensures your display colors remain accurate.", "欢迎！\n\n请导入一个 ICC 配置文件以开始使用。\n这将确保您的显示器颜色始终准确。", "ようこそ！\n\n開始するには ICC プロファイルをインポートしてください。\nこれにより、モニターの色が常に正確に保たれます。"),
        Message::WizBtnImport => ("Import", "导入", "インポート"),
        Message::WizBtnSkip => ("Skip", "跳过", "スキップ"),
        Message::WizBtnNext => ("Next >", "下一步 >", "次へ >"),
        Message::WizCongrats => ("Congratulations! You are all set.\n\nIcc Auto Reloader will run in the background\nand protect your calibration.", "恭喜！设置已完成。\n\nIcc Auto Reloader 将在后台运行并保护您的校准。", "おめでとうございます！準備が完了しました。\n\nIcc Auto Reloader はバックグラウンドで実行され、\nキャリブレーションを保護します。"),
        Message::WizChkStartup => ("Run at startup", "开机时自动运行", "スタートアップ時に実行"),
        Message::WizBtnFinish => ("Finish", "完成", "完了"),
        Message::WizTitleWelcome => ("Welcome", "欢迎", "ようこそ"),
        Message::WizStep1Title => ("Import ICC Profile", "导入 ICC 配置文件", "ICCプロファイルをインポート"),
        Message::WizStep1Desc => ("Select an ICC profile, or skip to use the Windows default profile.", "选择一个ICC配置文件，或跳过以使用Windows已安装的配置文件。", "ICCプロファイルを選択するか、スキップしてWindowsのデフォルトプロファイルを使用します。"),
        Message::WizStep1NoProfile => ("No profile selected (Windows default will be used)", "未选择配置文件（将使用Windows默认）", "プロファイル未選択（Windowsのデフォルトを使用）"),
        Message::WizStep1Profile => ("Profile: ", "配置文件: ", "プロファイル: "),
        Message::WizStep2Title => ("Setup Complete!", "设置完成！", "セットアップ完了！"),
        Message::WizBtnBack => ("< Back", "< 返回", "< 戻る"),
        Message::WizBtnCancel => ("Cancel", "取消", "キャンセル"),
    }
}

/// The text of a message in the language with index `lang`.
pub fn get_str(lang: u32, id: Message) -> (r: String)
    ensures
        r@ == text_of(lang, id),
{
    let (en, zh, ja) = wording_of(id);
    if lang == 1 {
        zh.to_owned()
    } else if lang == 2 {
        ja.to_owned()
    } else {
        en.to_owned()
    }
}

} // verus!
