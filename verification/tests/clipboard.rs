use anyhow::Context;
use slint_demo::clipboard::{
    clear_status, clear_text, copy_status, copy_text, paste_text, paste_update, ClipboardResult,
    ClipboardService,
};
use std::sync::Mutex;

/// An in-memory clipboard that can be told to fail.
struct MemoryClipboard {
    text: Mutex<String>,
    broken: bool,
}

impl MemoryClipboard {
    fn new(broken: bool) -> Self {
        MemoryClipboard { text: Mutex::new(String::new()), broken }
    }
}

impl ClipboardService for MemoryClipboard {
    fn get_text(&self) -> anyhow::Result<String> {
        if self.broken {
            return Err(anyhow::Error::msg("读取失败: 无剪贴板")).context("从剪贴板读取文本");
        }
        Ok(self.text.lock().unwrap().clone())
    }

    fn set_text(&self, text: &str) -> anyhow::Result<()> {
        if self.broken {
            return Err(anyhow::Error::msg("写入失败: 无剪贴板")).context("写入文本到剪贴板");
        }
        *self.text.lock().unwrap() = text.to_string();
        Ok(())
    }
}

#[test]
fn result_messages() {
    assert_eq!(ClipboardResult::Success.message(), "操作成功");
    assert_eq!(ClipboardResult::Empty.message(), "剪贴板为空");
    assert_eq!(ClipboardResult::Error("锁失败".to_string()).message(), "锁失败");
}

#[test]
fn status_lines() {
    assert_eq!(copy_status(Ok(())), "已复制到剪贴板");
    assert_eq!(copy_status(Err("写入文本到剪贴板".to_string())), "复制失败: 写入文本到剪贴板");
    assert_eq!(clear_status(Ok(())), "已清空剪贴板");
    assert_eq!(clear_status(Err("x".to_string())), "清空失败: x");

    let u = paste_update(Ok("hello".to_string()));
    assert_eq!(u.input_text.as_deref(), Some("hello"));
    assert_eq!(u.status, "已从剪贴板粘贴");
    let u = paste_update(Err("从剪贴板读取文本".to_string()));
    assert!(u.input_text.is_none());
    assert_eq!(u.status, "粘贴失败: 从剪贴板读取文本");
}

#[test]
fn copy_then_paste_gives_the_text_back() {
    let clipboard = MemoryClipboard::new(false);
    assert_eq!(copy_text(&clipboard, "你好 Slint"), "已复制到剪贴板");
    let u = paste_text(&clipboard);
    assert_eq!(u.input_text.as_deref(), Some("你好 Slint"));
    assert_eq!(u.status, "已从剪贴板粘贴");
    assert_eq!(clear_text(&clipboard), "已清空剪贴板");
    assert_eq!(paste_text(&clipboard).input_text.as_deref(), Some(""));
}

#[test]
fn failures_show_the_outermost_context() {
    let clipboard = MemoryClipboard::new(true);
    assert_eq!(copy_text(&clipboard, "x"), "复制失败: 写入文本到剪贴板");
    assert_eq!(clear_text(&clipboard), "清空失败: 写入文本到剪贴板");
    let u = paste_text(&clipboard);
    assert!(u.input_text.is_none());
    assert_eq!(u.status, "粘贴失败: 从剪贴板读取文本");
}
