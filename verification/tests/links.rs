use teleemix::links::{
    find_deezer_kind, find_link, find_page_data, is_spotify_track, put_arl, Link,
};

#[test]
fn spotify_links_come_first() {
    assert_eq!(find_link("https://open.spotify.com/track/4uLU6hMCjMI75M1A2tKUQC?si=1"), Link::Spotify);
    assert_eq!(find_link("see http://open.spotify.com/album/1A"), Link::Spotify);
    assert_eq!(find_link("https://open.spotify.com/track/"), Link::Nothing);
    assert_eq!(find_link("https://open.spotify.com/track/-1"), Link::Nothing);
    assert_eq!(find_link("https://open.spotify.com/playlist/1"), Link::Nothing);
    assert_eq!(
        find_link("https://open.spotify.com/album/x https://www.deezer.com/track/1"),
        Link::Spotify
    );
    assert!(is_spotify_track("https://open.spotify.com/track/1"));
    assert!(!is_spotify_track("https://open.spotify.com/album/1"));
}

#[test]
fn deezer_links_are_found() {
    assert_eq!(find_link("https://link.deezer.com/s/30AbC"), Link::DeezerShort);
    assert_eq!(find_link("https://link.deezer.com/s/ x"), Link::Nothing);
    assert_eq!(find_link("https://www.deezer.com/track/3135556"), Link::Deezer);
    assert_eq!(find_link("http://deezer.com/fr/album/302127"), Link::Deezer);
    assert_eq!(find_link("look: https://deezer.com/en/playlist/1 !"), Link::Deezer);
    assert_eq!(find_link("https://www.deezer.com/FR/track/1"), Link::Nothing);
    assert_eq!(find_link("https://www.deezer.com/track/"), Link::Nothing);
    assert_eq!(find_link("https://www.deezer.com/track/\u{0664}"), Link::Deezer);
    assert_eq!(find_link("ftp://www.deezer.com/track/1"), Link::Nothing);
    assert_eq!(find_link("never gonna give you up"), Link::Nothing);
}

#[test]
fn deezer_links_tell_their_kind() {
    assert_eq!(find_deezer_kind("https://www.deezer.com/track/1"), Some("track".to_string()));
    assert_eq!(find_deezer_kind("https://deezer.com/de/artist/27"), Some("artist".to_string()));
    assert_eq!(
        find_deezer_kind("https://deezer.com/album/2 https://deezer.com/track/1"),
        Some("album".to_string())
    );
    assert_eq!(
        find_deezer_kind("https://deezer.com/playlist/track/1"),
        Some("track".to_string())
    );
    assert_eq!(find_deezer_kind("https://deezer.com/show/1"), None);
}

#[test]
fn page_data_is_cut_out() {
    let page = "<p><script id=\"__NEXT_DATA__\" type=\"application/json\">{\"a\":1}</script></p></script>";
    assert_eq!(find_page_data(page), Some("{\"a\":1}".to_string()));
    assert_eq!(find_page_data("<script>{}</script>"), None);
    let broken = "<script id=\"__NEXT_DATA__\" type=\"application/json\">{\n}</script>";
    assert_eq!(find_page_data(broken), None);
    let empty = "<script id=\"__NEXT_DATA__\" type=\"application/json\"></script>";
    assert_eq!(find_page_data(empty), Some("".to_string()));
}

#[test]
fn a_new_arl_takes_the_place_of_the_old() {
    assert_eq!(
        put_arl("A=1\nDEEMIX_ARL=old # x\nB=2\n", "new"),
        "A=1\nDEEMIX_ARL=new\nB=2\n"
    );
    assert_eq!(put_arl("DEEMIX_ARL=", "new"), "DEEMIX_ARL=new");
    assert_eq!(
        put_arl("DEEMIX_ARL=1\nDEEMIX_ARL=2", "new"),
        "DEEMIX_ARL=new\nDEEMIX_ARL=2"
    );
}

#[test]
fn only_a_line_that_begins_with_the_key_counts() {
    assert_eq!(
        put_arl("# DEEMIX_ARL=x\nMY_DEEMIX_ARL=y\nDEEMIX_ARL=old\n", "new"),
        "# DEEMIX_ARL=x\nMY_DEEMIX_ARL=y\nDEEMIX_ARL=new\n"
    );
    assert_eq!(
        put_arl("# DEEMIX_ARL=x\n", "new"),
        "# DEEMIX_ARL=x\nDEEMIX_ARL=new\n"
    );
}

#[test]
fn an_exported_or_indented_arl_is_replaced_in_its_place() {
    assert_eq!(put_arl("export DEEMIX_ARL=old\n", "new"), "export DEEMIX_ARL=new\n");
    assert_eq!(put_arl("  DEEMIX_ARL=old\nB=2", "new"), "  DEEMIX_ARL=new\nB=2");
    assert_eq!(put_arl("\texport \t DEEMIX_ARL=old", "new"), "\texport \t DEEMIX_ARL=new");
    assert_eq!(put_arl("A=1\nDEEMIX_ARL = old\n", "new"), "A=1\nDEEMIX_ARL =new\n");
    assert_eq!(put_arl("\u{feff}DEEMIX_ARL=old\n", "new"), "\u{feff}DEEMIX_ARL=new\n");
    assert_eq!(put_arl("\n\n DEEMIX_ARL=old\n", "new"), "\n\n DEEMIX_ARL=new\n");
}

#[test]
fn the_first_arl_line_of_either_form_is_replaced() {
    assert_eq!(
        put_arl("export DEEMIX_ARL=1\nDEEMIX_ARL=2\n", "new"),
        "export DEEMIX_ARL=new\nDEEMIX_ARL=2\n"
    );
    assert_eq!(
        put_arl("DEEMIX_ARL=1\nexport DEEMIX_ARL=2\n", "new"),
        "DEEMIX_ARL=new\nexport DEEMIX_ARL=2\n"
    );
}

#[test]
fn other_words_make_no_arl_line() {
    assert_eq!(
        put_arl("exportDEEMIX_ARL=x\n", "new"),
        "exportDEEMIX_ARL=x\nDEEMIX_ARL=new\n"
    );
    assert_eq!(
        put_arl("  # export DEEMIX_ARL=x\n", "new"),
        "  # export DEEMIX_ARL=x\nDEEMIX_ARL=new\n"
    );
    assert_eq!(put_arl("export\nDEEMIX_ARL\n=x\n", "new"), "export\nDEEMIX_ARL\n=x\nDEEMIX_ARL=new\n");
    assert_eq!(put_arl("DEEMIX_ARLS=x\n", "new"), "DEEMIX_ARLS=x\nDEEMIX_ARL=new\n");
}

#[test]
fn a_file_without_arl_gets_one() {
    assert_eq!(put_arl("A=1\n", "new"), "A=1\nDEEMIX_ARL=new\n");
    assert_eq!(put_arl("A=1", "new"), "A=1\nDEEMIX_ARL=new\n");
    assert_eq!(put_arl("", "new"), "DEEMIX_ARL=new\n");
    assert_eq!(put_arl("DEEMIX_", "new"), "DEEMIX_\nDEEMIX_ARL=new\n");
}

#[test]
fn an_arl_is_written_as_it_is() {
    assert_eq!(put_arl("DEEMIX_ARL=old", "a$0b"), "DEEMIX_ARL=a$0b");
    assert_eq!(put_arl("DEEMIX_ARL=old", "a$$b"), "DEEMIX_ARL=a$$b");
    assert_eq!(put_arl("X=1", "${0}"), "X=1\nDEEMIX_ARL=${0}\n");
}
