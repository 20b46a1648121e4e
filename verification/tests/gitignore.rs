use dionysius::exclude::{gitignore_to_borg, read_gitignore, BorgPattern};

fn lines_of(content: &str) -> Vec<String> {
    content.lines().map(|l| l.to_string()).collect()
}

#[test]
fn test_read_gitignore() {
    let lines = lines_of("test\n# comment\n\n!negate");
    let patterns = read_gitignore(&lines);
    assert_eq!(patterns.len(), 2);
    assert_eq!(patterns[0].pattern, "test");
    assert_eq!(patterns[1].pattern, "!negate");
}

#[test]
fn test_cargo_gitignore() {
    let cargo_gitignore = r#"
# Generated by Cargo
# will have compiled files and executables
/debug
/target

# Remove Cargo.lock from gitignore if creating an executable, leave it for libraries
# More information here http://doc.crates.io/guide.html#cargotoml-vs-cargolock
Cargo.lock

# These are backup files generated by rustfmt
**/*.rs.bk
"#;
    let patterns = read_gitignore(&lines_of(cargo_gitignore));
    assert_eq!(patterns.len(), 4);
    assert_eq!(patterns[0].pattern, "/debug");
    assert_eq!(patterns[1].pattern, "/target");
    assert_eq!(patterns[2].pattern, "Cargo.lock");
    assert_eq!(patterns[3].pattern, "**/*.rs.bk");

    let borg_patterns: Vec<BorgPattern> =
        patterns.into_iter().map(|p| gitignore_to_borg(&p).unwrap()).collect();
    assert_eq!(borg_patterns.len(), 4);
    assert_eq!(borg_patterns[0], BorgPattern::Shell("debug".to_string()));
    assert_eq!(borg_patterns[1], BorgPattern::Shell("target".to_string()));
    assert_eq!(borg_patterns[2], BorgPattern::Shell("**/Cargo.lock".to_string()));
    assert_eq!(borg_patterns[3], BorgPattern::Shell("**/*.rs.bk".to_string()));
}

#[test]
fn test_cmake_gitignore() {
    let cmake_gitignore = r#"
# Prerequisites
*.d

# Compiled Object files
*.slo
*.lo
*.o
*.obj

# Precompiled Headers
*.gch
*.pch

# Compiled Dynamic libraries
*.so
*.dylib
*.dll

# Fortran module files
*.mod
*.smod

# Compiled Static libraries
*.lai
*.la
*.a
*.lib

# Executables
*.exe
*.out
*.app
"#;
    let patterns = read_gitignore(&lines_of(cmake_gitignore));
    assert_eq!(patterns.len(), 19);
    assert_eq!(patterns[0].pattern, "*.d");
    assert_eq!(patterns[1].pattern, "*.slo");
    assert_eq!(patterns[2].pattern, "*.lo");
    assert_eq!(patterns[3].pattern, "*.o");
    assert_eq!(patterns[4].pattern, "*.obj");
    assert_eq!(patterns[5].pattern, "*.gch");
    assert_eq!(patterns[6].pattern, "*.pch");
    assert_eq!(patterns[7].pattern, "*.so");
    assert_eq!(patterns[8].pattern, "*.dylib");
    assert_eq!(patterns[9].pattern, "*.dll");
    assert_eq!(patterns[10].pattern, "*.mod");
    assert_eq!(patterns[11].pattern, "*.smod");
    assert_eq!(patterns[12].pattern, "*.lai");
    assert_eq!(patterns[13].pattern, "*.la");
    assert_eq!(patterns[14].pattern, "*.a");
    assert_eq!(patterns[15].pattern, "*.lib");
    assert_eq!(patterns[16].pattern, "*.exe");
    assert_eq!(patterns[17].pattern, "*.out");
    assert_eq!(patterns[18].pattern, "*.app");

    let borg_patterns: Vec<BorgPattern> =
        patterns.into_iter().map(|p| gitignore_to_borg(&p).unwrap()).collect();
    assert_eq!(borg_patterns.len(), 19);
    assert_eq!(borg_patterns[0], BorgPattern::Shell("**/*.d".to_string()));
    assert_eq!(borg_patterns[1], BorgPattern::Shell("**/*.slo".to_string()));
    assert_eq!(borg_patterns[2], BorgPattern::Shell("**/*.lo".to_string()));
    assert_eq!(borg_patterns[3], BorgPattern::Shell("**/*.o".to_string()));
    assert_eq!(borg_patterns[4], BorgPattern::Shell("**/*.obj".to_string()));
    assert_eq!(borg_patterns[5], BorgPattern::Shell("**/*.gch".to_string()));
    assert_eq!(borg_patterns[6], BorgPattern::Shell("**/*.pch".to_string()));
    assert_eq!(borg_patterns[7], BorgPattern::Shell("**/*.so".to_string()));
    assert_eq!(borg_patterns[8], BorgPattern::Shell("**/*.dylib".to_string()));
    assert_eq!(borg_patterns[9], BorgPattern::Shell("**/*.dll".to_string()));
    assert_eq!(borg_patterns[10], BorgPattern::Shell("**/*.mod".to_string()));
    assert_eq!(borg_patterns[11], BorgPattern::Shell("**/*.smod".to_string()));
    assert_eq!(borg_patterns[12], BorgPattern::Shell("**/*.lai".to_string()));
    assert_eq!(borg_patterns[13], BorgPattern::Shell("**/*.la".to_string()));
    assert_eq!(borg_patterns[14], BorgPattern::Shell("**/*.a".to_string()));
    assert_eq!(borg_patterns[15], BorgPattern::Shell("**/*.lib".to_string()));
    assert_eq!(borg_patterns[16], BorgPattern::Shell("**/*.exe".to_string()));
    assert_eq!(borg_patterns[17], BorgPattern::Shell("**/*.out".to_string()));
    assert_eq!(borg_patterns[18], BorgPattern::Shell("**/*.app".to_string()));
}

#[test]
fn test_yarn_gitignore() {
    let yarn_gitignore = r#"
# Yarn Integrity file
.yarn-integrity

# Yarn Modules
.yarn/*
!.yarn/cache
!.yarn/patches
!.yarn/releases
!.yarn/plugins
!.yarn/sdks
!.yarn/versions

# Yarn Unplugged
.pnp.*
"#;
    let patterns = read_gitignore(&lines_of(yarn_gitignore));
    assert_eq!(patterns.len(), 9);
    assert_eq!(patterns[0].pattern, ".yarn-integrity");
    assert_eq!(patterns[1].pattern, ".yarn/*");
    assert_eq!(patterns[2].pattern, "!.yarn/cache");
    assert_eq!(patterns[3].pattern, "!.yarn/patches");
    assert_eq!(patterns[4].pattern, "!.yarn/releases");
    assert_eq!(patterns[5].pattern, "!.yarn/plugins");
    assert_eq!(patterns[6].pattern, "!.yarn/sdks");
    assert_eq!(patterns[7].pattern, "!.yarn/versions");
    assert_eq!(patterns[8].pattern, ".pnp.*");
}

#[test]
fn test_blank_lines_with_spaces_skipped() {
    let lines = lines_of("  \t\nkeep\n   # not a comment, has leading spaces but is kept\n");
    let patterns = read_gitignore(&lines);
    assert_eq!(patterns.len(), 2);
    assert_eq!(patterns[0].pattern, "keep");
    assert_eq!(patterns[1].pattern, "   # not a comment, has leading spaces but is kept");
}
