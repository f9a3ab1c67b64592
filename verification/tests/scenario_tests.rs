use std::io::{Cursor, Write};

use shell::{Config, ShellEmulator};
use zip::write::SimpleFileOptions;
use zip::{ZipArchive, ZipWriter};

fn config() -> Config {
    Config {
        user: "ann".to_string(),
        computer: "box".to_string(),
        zip_path: "files.zip".to_string(),
        log_file: "session.json".to_string(),
    }
}

fn sample_bytes() -> Vec<u8> {
    let mut zip = ZipWriter::new(Cursor::new(Vec::new()));
    zip.add_directory("dir1/", SimpleFileOptions::default()).unwrap();
    zip.start_file("dir1/file2.txt", SimpleFileOptions::default()).unwrap();
    zip.write_all(b"Another file").unwrap();
    zip.start_file("file1.txt", SimpleFileOptions::default()).unwrap();
    zip.write_all(b"Hello, world!").unwrap();
    zip.add_directory("dir1/inner/", SimpleFileOptions::default()).unwrap();
    zip.start_file("dir1/inner/deep.txt", SimpleFileOptions::default()).unwrap();
    zip.write_all(b"deep").unwrap();
    zip.start_file("blob.bin", SimpleFileOptions::default()).unwrap();
    zip.write_all(&[0xff, 0xfe, 0x00, 0xc3]).unwrap();
    zip.finish().unwrap().into_inner()
}

fn sample() -> ShellEmulator {
    ShellEmulator::new(&config(), ZipArchive::new(Cursor::new(sample_bytes())).unwrap())
}

#[test]
fn new_shell_stands_at_root_with_empty_log() {
    let shell = sample();
    assert_eq!(shell.user, "ann");
    assert_eq!(shell.computer, "box");
    assert_eq!(shell.log_file, "session.json");
    assert_eq!(shell.current_dir, "");
    assert!(shell.log_entries.is_empty());
    assert_eq!(shell.prompt(), "ann@box:/$ ");
    assert_eq!(shell.pwd(), "/\n");
}

#[test]
fn load_reads_an_archive_from_bytes() {
    let mut shell = ShellEmulator::load(&config(), sample_bytes()).unwrap();
    assert_eq!(shell.current_dir, "");
    assert!(shell.log_entries.is_empty());
    assert_eq!(shell.ls(""), "dir1 file1.txt blob.bin \n");
}

#[test]
fn load_refuses_bytes_that_are_no_archive() {
    assert!(ShellEmulator::load(&config(), b"not an archive".to_vec()).is_err());
    assert!(ShellEmulator::load(&config(), Vec::new()).is_err());
}

#[test]
fn walk_through_the_archive() {
    let mut shell = sample();

    assert_eq!(shell.ls(""), "dir1 file1.txt blob.bin \n");
    assert_eq!(shell.log_entries.len(), 1);
    assert_eq!(shell.log_entries[0].user, "ann");
    assert_eq!(shell.log_entries[0].command, "ls");
    assert_eq!(shell.log_entries[0].details, "listing of /");

    assert_eq!(shell.cat("file1.txt"), "Hello, world!\n");
    assert_eq!(shell.log_entries.len(), 1);

    assert_eq!(shell.cd("dir1"), "");
    assert_eq!(shell.current_dir, "dir1/");
    assert_eq!(shell.log_entries.len(), 2);
    assert_eq!(shell.log_entries[1].command, "cd");
    assert_eq!(shell.log_entries[1].details, "navigated to /dir1/");
    assert_eq!(shell.pwd(), "/dir1/\n");
    assert_eq!(shell.prompt(), "ann@box:/dir1/$ ");

    assert_eq!(shell.cd("nope"), "mysh: cd: specified file not found in archive\n");
    assert_eq!(shell.current_dir, "dir1/");
    assert_eq!(shell.log_entries.len(), 3);
    assert_eq!(
        shell.log_entries[2].details,
        "mysh: cd: specified file not found in archive"
    );

    assert_eq!(shell.cat("/etc"), "mysh: cat: path starts with . or /\n");
    assert_eq!(shell.log_entries.len(), 3);
}

#[test]
fn ls_in_a_directory_lists_its_children() {
    let mut shell = sample();
    shell.cd("dir1");
    assert_eq!(shell.ls(""), "file2.txt inner \n");
    assert_eq!(shell.log_entries.last().unwrap().details, "listing of /dir1/");
    assert_eq!(shell.ls("."), "file2.txt inner \n");
    assert_eq!(shell.log_entries.last().unwrap().details, "listing of /dir1/");
    assert_eq!(shell.ls("inner"), "deep.txt \n");
    assert_eq!(shell.log_entries.last().unwrap().details, "listing of /dir1/inner");
    assert_eq!(shell.ls("none"), "");
    assert_eq!(shell.log_entries.last().unwrap().details, "listing of /dir1/none");
    assert_eq!(shell.log_entries.len(), 5);
    assert_eq!(shell.current_dir, "dir1/");
}

#[test]
fn ls_of_a_named_directory_from_root() {
    let mut shell = sample();
    assert_eq!(shell.ls("dir1"), "file2.txt inner \n");
    assert_eq!(shell.log_entries.last().unwrap().details, "listing of /dir1");
    assert_eq!(shell.ls("dir1/inner"), "deep.txt \n");
    assert_eq!(shell.ls("dir1/"), "");
    assert_eq!(shell.ls("file1.txt"), "");
}

#[test]
fn ls_dot_dot_lists_root_only_at_root() {
    let mut shell = sample();
    assert_eq!(shell.ls(".."), "dir1 file1.txt blob.bin \n");
    assert_eq!(shell.log_entries.last().unwrap().details, "listing of /");
    shell.cd("dir1");
    assert_eq!(shell.ls(".."), "");
    assert_eq!(shell.log_entries.last().unwrap().details, "listing of /dir1/..");
    assert_eq!(shell.current_dir, "dir1/");
}

#[test]
fn ls_easter_egg_shows_every_entry() {
    let mut shell = sample();
    shell.cd("dir1");
    let shown = shell.ls(".?.");
    assert_eq!(
        shown,
        "CONGRATULATIONS!!! YOU FOUND EASTER EGG\n\
         dir1/ dir1/file2.txt file1.txt dir1/inner/ dir1/inner/deep.txt blob.bin \n"
    );
    assert_eq!(shell.log_entries.len(), 2);
    assert_eq!(shell.log_entries[1].command, "easter egg");
    assert_eq!(shell.log_entries[1].details, "easter egg found");
}

#[test]
fn ls_among_works_on_the_names_given() {
    let mut shell = sample();
    let all: Vec<String> = vec!["x/1".to_string(), "y".to_string(), "x/2".to_string()];
    assert_eq!(shell.ls_among("", &all), "x y \n");
    assert_eq!(shell.ls_among("x", &all), "1 2 \n");
    assert_eq!(shell.ls_among(".?.", &all), "CONGRATULATIONS!!! YOU FOUND EASTER EGG\nx/1 y x/2 \n");
    assert_eq!(shell.ls_among("", &Vec::new()), "");
    assert_eq!(shell.log_entries.len(), 4);
}

#[test]
fn cd_to_root_from_anywhere() {
    let mut shell = sample();
    shell.cd("dir1");
    assert_eq!(shell.cd(""), "");
    assert_eq!(shell.current_dir, "");
    assert_eq!(shell.log_entries.last().unwrap().details, "navigated to root");
    shell.cd("dir1");
    assert_eq!(shell.cd("/"), "");
    assert_eq!(shell.current_dir, "");
    assert_eq!(shell.log_entries.last().unwrap().details, "navigated to root");
}

#[test]
fn cd_up_at_root_stays_at_root() {
    let mut shell = sample();
    assert_eq!(shell.cd(".."), "");
    assert_eq!(shell.current_dir, "");
    assert_eq!(shell.log_entries.len(), 1);
    assert_eq!(shell.log_entries[0].details, "navigated to root");
    assert_eq!(shell.cd(".."), "");
    assert_eq!(shell.current_dir, "");
    assert_eq!(shell.log_entries[1].details, "navigated to root");
}

#[test]
fn cd_then_up_returns() {
    let mut shell = sample();
    shell.cd("dir1");
    shell.cd("inner");
    assert_eq!(shell.current_dir, "dir1/inner/");
    assert_eq!(shell.log_entries.last().unwrap().details, "navigated to /dir1/inner/");
    shell.cd("..");
    assert_eq!(shell.current_dir, "dir1/");
    assert_eq!(shell.log_entries.last().unwrap().details, "navigated to /dir1/");
    shell.cd("..");
    assert_eq!(shell.current_dir, "");
    assert_eq!(shell.log_entries.last().unwrap().details, "navigated to root");
    assert_eq!(shell.log_entries.len(), 4);
}

#[test]
fn cd_accepts_a_closing_separator_and_nested_paths() {
    let mut shell = sample();
    assert_eq!(shell.cd("dir1/"), "");
    assert_eq!(shell.current_dir, "dir1/");
    shell.cd("/");
    assert_eq!(shell.cd("dir1/inner"), "");
    assert_eq!(shell.current_dir, "dir1/inner/");
}

#[test]
fn cd_refuses_a_leading_dot_or_separator() {
    let mut shell = sample();
    shell.cd("dir1");
    for token in [".", "./inner", "/dir1", ".hidden", "..."] {
        assert_eq!(shell.cd(token), "mysh: cd: path starts with . or /\n");
        assert_eq!(shell.current_dir, "dir1/");
        assert_eq!(shell.log_entries.last().unwrap().command, "cd");
        assert_eq!(
            shell.log_entries.last().unwrap().details,
            "mysh: cd: path starts with . or /"
        );
    }
    assert_eq!(shell.log_entries.len(), 6);
}

#[test]
fn cd_to_a_file_is_not_found_as_a_directory() {
    let mut shell = sample();
    assert_eq!(shell.cd("file1.txt"), "mysh: cd: specified file not found in archive\n");
    assert_eq!(shell.current_dir, "");
}

#[test]
fn enter_follows_the_answer_given() {
    let mut shell = sample();
    assert_eq!(shell.enter("a/".to_string(), Ok(true)), "");
    assert_eq!(shell.current_dir, "a/");
    assert_eq!(shell.log_entries[0].details, "navigated to /a/");

    assert_eq!(shell.enter("a/b/".to_string(), Ok(false)), "mysh: cd: a/b/ is not a directory\n");
    assert_eq!(shell.current_dir, "a/");
    assert_eq!(shell.log_entries[1].command, "cd");
    assert_eq!(shell.log_entries[1].details, "mysh: cd: a/b/ is not a directory");

    assert_eq!(
        shell.enter("a/c/".to_string(), Err("no such entry".to_string())),
        "mysh: cd: no such entry\n"
    );
    assert_eq!(shell.current_dir, "a/");
    assert_eq!(shell.log_entries[2].details, "mysh: cd: no such entry");
}

#[test]
fn move_to_logs_where_it_ends() {
    let mut shell = sample();
    shell.move_to("x/y/".to_string());
    assert_eq!(shell.current_dir, "x/y/");
    assert_eq!(shell.log_entries[0].details, "navigated to /x/y/");
    shell.move_to(String::new());
    assert_eq!(shell.current_dir, "");
    assert_eq!(shell.log_entries[1].details, "navigated to root");
}

#[test]
fn cat_from_a_directory_resolves_against_the_cursor() {
    let mut shell = sample();
    shell.cd("dir1");
    assert_eq!(shell.cat("file2.txt"), "Another file\n");
    assert_eq!(shell.cat("inner/deep.txt"), "deep\n");
    assert_eq!(shell.cat("file1.txt"), "mysh: cat: specified file not found in archive\n");
    assert_eq!(shell.log_entries.len(), 1);
}

#[test]
fn cat_of_a_directory_says_so() {
    let mut shell = sample();
    assert_eq!(shell.cat("dir1/"), "mysh: dir1/ is a directory\n");
    assert_eq!(shell.cat("dir1"), "mysh: cat: specified file not found in archive\n");
    assert!(shell.log_entries.is_empty());
}

#[test]
fn cat_accepts_a_leading_dot() {
    let mut shell = sample();
    assert_eq!(shell.cat(".profile"), "mysh: cat: specified file not found in archive\n");
    assert_eq!(shell.cat("./file1.txt"), "mysh: cat: specified file not found in archive\n");
}

#[test]
fn cat_of_bytes_that_are_no_text_reports_a_read_error() {
    let mut shell = sample();
    let shown = shell.cat("blob.bin");
    assert!(shown.starts_with("mysh: cat: "));
    assert!(shown.ends_with('\n'));
    assert!(!shown.contains('\u{0}'));
    assert!(shell.log_entries.is_empty());
}

#[test]
fn cat_reply_for_each_answer() {
    assert_eq!(
        ShellEmulator::cat_reply("a.txt", Ok(false), Ok("body".to_string())),
        "body\n"
    );
    assert_eq!(
        ShellEmulator::cat_reply("a.txt", Ok(false), Err("stream did not contain valid UTF-8".to_string())),
        "mysh: cat: stream did not contain valid UTF-8\n"
    );
    assert_eq!(
        ShellEmulator::cat_reply("d/", Ok(true), Ok(String::new())),
        "mysh: d/ is a directory\n"
    );
    assert_eq!(
        ShellEmulator::cat_reply("x", Err("gone".to_string()), Ok("body".to_string())),
        "mysh: cat: gone\n"
    );
}

#[test]
fn session_holds_every_record_in_order() {
    let mut shell = sample();
    shell.ls("");
    shell.cd("dir1");
    shell.cat("file2.txt");
    shell.pwd();
    shell.clear();
    shell.cd("..");
    shell.log("note", "by hand".to_string());
    let session = shell.save_log();
    assert_eq!(session.user, "ann");
    let told: Vec<(String, String, String)> = session
        .log
        .iter()
        .map(|e| (e.user.clone(), e.command.clone(), e.details.clone()))
        .collect();
    let kept: Vec<(String, String, String)> = shell
        .log_entries
        .iter()
        .map(|e| (e.user.clone(), e.command.clone(), e.details.clone()))
        .collect();
    assert_eq!(told, kept);
    let details: Vec<&str> = session.log.iter().map(|e| e.details.as_str()).collect();
    assert_eq!(
        details,
        vec![
            "listing of /",
            "navigated to /dir1/",
            "screen cleared",
            "navigated to root",
            "by hand",
        ]
    );
}
