use rust_optimizer::catalog::default_catalog;
use rust_optimizer::render::{join_lines, render, task_row};
use rust_optimizer::session::{SessionState, Task};

#[test]
fn join_puts_newline_between_lines() {
    assert_eq!(join_lines(&Vec::new()), "");
    assert_eq!(join_lines(&vec!["a".to_string()]), "a");
    assert_eq!(join_lines(&vec!["a".to_string(), "b".to_string(), "c".to_string()]), "a\nb\nc");
}

#[test]
fn rows_show_checkbox_and_name() {
    let on = task_row(&Task::new("Flush DNS", vec!["ipconfig".to_string()], true));
    assert_eq!(on.marker, "[x]");
    assert_eq!(on.name, "Flush DNS");
    let off = task_row(&Task::new("Optimizar HDD", vec!["defrag".to_string()], false));
    assert_eq!(off.marker, "[ ]");
}

#[test]
fn render_reflects_session() {
    let mut s = SessionState::new(default_catalog());
    s.move_up();
    s.toggle_current();
    s.begin_run();
    s.append_log("Ejecutando: X".to_string());
    let scr = render(&s);
    assert_eq!(scr.title, "Windows Turbo Optimizer");
    assert_eq!(scr.tabs, vec!["Selección", "Ejecución", "Logs"]);
    assert_eq!(scr.list_title, "Optimización");
    assert_eq!(scr.log_title, "Logs");
    assert_eq!(scr.rows.len(), 10);
    assert_eq!(scr.selected, 9);
    assert_eq!(scr.rows[9].marker, "[x]");
    assert_eq!(scr.rows[9].name, "Optimizar HDD");
    assert_eq!(scr.rows[0].marker, "[x]");
    assert_eq!(scr.log_text, "Iniciando optimización...\n\nEjecutando: X");
}

#[test]
fn catalog_has_defaults() {
    let c = default_catalog();
    assert_eq!(c.len(), 10);
    assert_eq!(c[0].name, "Limpiar TEMP");
    assert_eq!(c[0].command, vec!["cmd", "/C", "del /q/f/s %TEMP%\\*"]);
    assert_eq!(c[7].name, "Desactivar Telemetría");
    assert!(!c[7].enabled);
    assert_eq!(c[5].command.len(), 4);
    let enabled = c.iter().filter(|t| t.enabled).count();
    assert_eq!(enabled, 8);
}
