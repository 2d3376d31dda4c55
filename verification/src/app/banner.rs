//! The banner of the application, in several sizes.

use crate::text::{copy_of, lines, lines_of, widest, widest_line};
use crate::widget::rect::Rect;
use vstd::prelude::*;

verus! {

/// The number of banners; they are ordered from small to big.
pub const BANNER_COUNT: usize = 7;

/// The name of the application.
pub const NAME: &'static str = "gpg-tui";

/// What the application is for.
pub const DESCRIPTION: &'static str = "Manage your GnuPG keys with ease!";

/// The version of the application.
pub const VERSION: &'static str = "0.11.0";

/// Who wrote the application.
pub const AUTHORS: &'static str = "Orhun Parmaksız <orhunparmaksiz@gmail.com>";

/// Where the application lives.
pub const HOMEPAGE: &'static str = "https://github.com/orhun/gpg-tui";

/// The banner at `index`; the smallest one is the name alone, and an
/// index past the last banner gives the biggest.
pub open spec fn banner_art(index: int) -> Seq<char> {
    if index <= 0 {
        "gpg-tui"@
    } else if index == 1 {
        r#"
 .ydhh/ +mdhh: :hddy.
 sm` ym +m- sd`hy  ys
 sm`--- /h-`sy`yy`:--
 oh`/sh /hsso- hy./mh
 +h-`sy /h.    hd.-my
  :oo+. -o.    `+sy+`-tui
"#@
    } else if index == 2 {
        r#"
 -sdmmh+`  sddddho.   /hmmdy:
 :mms:/dmh  ymd//smm: smm+:+hh:
 +mm`  omm` ymh   mdo yho   yds
 +mm`  ```  ohs   hh+ sho   ```
 +md`/ssss  ohy::+hh: hmy yysyo
 /hh`-/shy` ohhyyyo-  yhs //mms
 /hh`  +hy` ohs       yds   dms
 .yho:/yho  sdy       omd+/smm/
  .+syyo:`  +so        -shdhs- 
 `----------` `..... ..  .. `.`
 :ssssssssss- /ydmys dd  dd /m/
                ym`  hd..dd /m/
                oh`  .shhs. :h:
"#@
    } else if index == 3 {
        r#"
   `/shddhs:    .hhhhhhyo:      :shdddy/`
  -ddmmddmmmh`  .mmmmmmmmmd-  `ymmmddmmdh-
  hmmh.  .dmms  .mmm/``.ymmm` ommm-  `ohhy
  dmms    hmmy  .mmm:   :mmm. odhs`   /hhd`
  dmms    -//-  .hhh:   -hhh. +hhs`   .:/:
  dmms ```````  .hhh:   :hhh. +hhy``...```
  dmd+ +hhhhho  .hhho//ohhho` smmd`/ddhhmm`
  hhh+ :ooyhho  .hhhhhhddh/`  oddy`.ooymmm`
  yhh+    shho  .hhh/--.`     +hhy`   ommm`
  yhho    shho  .hhh:         odmd`   ommm`
  /hhh+::ohhh:  .ddd:         :mmms:/ommms
   :yhhhhhhs:   .hhh:          -sdmmmmmd+`
  `.-:+oo+:-....-///. ........`.``:/o+-...
  ommmmmmmmmmmmmmmmm/ mmmmmmmyymy  -mm-smy
   `````````````````  ``/mm.``ymy  -mm-smh
                        :mm`  omd:-smm.smh
                        :mm`   +hmmds- smy
                         ``       `     ``
"#@
    } else if index == 4 {
        r#"
   /ydmmdy:    ddddddho-    .sdmmmh+`                       
  ymmdssdmmy   mmmyyymmmo  :mmmysydhy.                      
 -mmd`  `mmm-  mmm.  `mmm. hmm/   +hho                      
 -mmd`   hhh-  mmd.   hdh- shh:   :yho                      
 -mmd`         hhh.   yhh- shh:                             
 -mmh`:sssss.  hhh:--+hhy` ymm/`hyysy+ /yyyyyyyy+           
 -dhy`:sshhh-  hhhhhhdds.  hdd:`sshmms +dddddddds           
 -hhy`   yhh-  hhh/::-`    shh:   omms  :yyyyyy/ss.  ss`oy- 
 -hhy`   hhh.  hhh.        ymm/   omms  ./+mmo/-mm-  mm-hm/ 
  shhs//shhs`  ddd.        /mmhoosmmm:     mm.  dm/ -mm.hm/ 
   :syhhys/`   yyy.         .odmmmds.      mm.  -ymmmh/ hm/ 
      ```                      ```         ``     ```   ``` 
"#@
    } else if index == 5 {
        r#"
      `-:/:.        ........`           `-:/:.
    +hmmmmmmms-     mmmmmmmmmds-     `+dmmmmmmms.
  `hmdmmhhdmmmm+    mmmmmddmmmmmo   .dmmmmhhdmddh:
  ommmh.   :mmmm.   mmmm-```:dmmm+  smmmy.   :hhhy`
  ymmmo     mmmm:   mmmm-    ommms  yddh/     hhhd-
  ymmmo     yhhh-   mddd-    +hhho  shhh/     syyh.
  ymmmo             hhhh-    +hhho  shhh/
  ymmmo .:::::::`   hhhh-   `shhh+  shdd+ .////::/` `------------
  ymdh+ :hhhhhhh-   hhhhsoooyhhhs.  hmmm+ /dhhhdmm- /mmmmmmmmmmmh`
  shhh+ -osshhhh-   hhhhhhhddmd+`   yddh/ -ossmmmm- :dddddddddddy`
  ohhh+     yhhh-   hhhh+///:.`     shhh/     mmmm-   ossssssss-oo+   .oo:`oo+
  ohhh+     yhhh-   hhhh-           shdd+     mmmm-   yddmmmddd/mmd`  :mmo`mmh`
  +hhhs`   -hhhh-   hhhh-           smmmy`   :mmmm.      ymm-   mmd`  :mmo`mmh`
  `shhhyooshhhh+`   ddmm-           .ddddhsydmmmm+       ymm-   dmm: `smm+`mmh`
   `/yhhhhhhhs:`    hhhh-            `/ymmmmmmmy:        ymm-   .hmmmmmms``mmh`
      .://:-.       .---`               ./++/:`          :++.     ./++:.   ++/
"#@
    } else {
        r#"
       -+osyys+-         ++++++++++:.            `/osyyso:`
    `+dmdmmmmmmmmo`      mmmmmmmmmmmmms-       :hmmmmmmmmmmy-
   .dmdmmmmdmmmmmmm-     mmmmmmmmmmmmmmmo     smmmmmmmmmmmddd+
   hmmmmh/.``-ymmmmm.    mmmmm/---:ommmmmo   /mmmmmo.``./yhhhh/
  `mmmmm-      mmmmm:    mmmmm:     /mmmmd`  ymmmmo`     +hhhho`
  `mmmmm-      mmmmm/    mmmmm:     -mmmmd.  shhhh+      /hhhdy`
  `mmmmm-      syyyy:    ddddd-     -hhhhy.  ohhhh+      :syyyo`
  `mmmmm-               `hhhhh-     -hhhhy.  ohhhh+
  `mmmmm-               `hhhhh-     :hhhhy.  ohhhh+
  `mmmmd. .hhhhhhhhh:   `hhhhh:```./yhhhho`  sdmmmo  hmmddhhdmy  -hhhhhhhhhhhhhhh`
  `mmhhh. .hhhhhhhhh:   `hhhhhhhhhhhhhdds.   ymmmmo  yhhhhhmmmy` -mmmmmmmmmmmmmmm.
  `hhhhh. `oooohhhhh:   `hhhhhhhhhdmmmy:`    sdhhh+  /ooohmmmmy` -hhhhhhhhhhhhhhh.
  `hhhhh.      yhhhh:   `hhhhho++++/-.`      ohhhh+      ommmmy`   -ooooooooooo.///-    -//: .+++.
  `hhhhh.      yhhhh:   `hhhhh-              ohhhh+      ommmmy`   :mmmmmmmmmmm-mmms`   smmd`:mmm:
  `hhhhh-      yhhhh:   `hhhhh-              smmmmo      ommmmy`   `///smmmo///.mmmy`   smmd`:mmm:
   shhhhs.   `+hhhhy.   `hhhhh-              +mmmmm/   `/mmmmm+        /mmm:    mmmy`   smmd`:mmm:
   .yhhhhhyyyhhhhhy/`    dmmmm:               sdddhhhddmmmmmmy.        /mmm:    hmmd:``:dmmy`:mmm:
    `+yhhhhhhhhhyo-     `hhhhh-                :shdmmmmmmmmh/`         /mmm:    .hmmmmmmmmh- :mmm:
      `-+ossso+:.`       /++++.                  -+syhhys+-`           :hhh-      -oyhhyo:`  -hhh:
"#@
    }
}

/// How many rows are left for the banner in an area of the given height:
/// four rows are kept for the text below, where there are that many.
pub open spec fn banner_rows(height: u16) -> int {
    if height >= 4 {
        height - 4
    } else {
        height as int
    }
}

/// Whether the banner at `index` fits an area: it has fewer lines than
/// there are rows, and its longest line is shorter than the width.
pub open spec fn banner_fits(index: int, rect: Rect) -> bool {
    banner_rows(rect.height) > lines_of(banner_art(index)).len() && rect.width > widest(
        lines_of(banner_art(index)),
    )
}

/// The biggest banner that fits, looking from `index` down; the smallest
/// where none fits.
pub open spec fn banner_choice(index: int, rect: Rect) -> int
    decreases index,
{
    if index <= 0 {
        0
    } else if banner_fits(index, rect) {
        index
    } else {
        banner_choice(index - 1, rect)
    }
}

/// The text below the banner.
pub open spec fn banner_caption() -> Seq<char> {
    "\n"@ + DESCRIPTION@ + " ("@ + VERSION@ + ")\nAuthor: "@ + AUTHORS@ + "\nHomepage: "@
        + HOMEPAGE@
}

/// The banner that an area shows: the biggest one that fits, with the
/// caption below.
pub open spec fn banner_text(rect: Rect) -> Seq<char> {
    banner_art(banner_choice(BANNER_COUNT - 1, rect)) + banner_caption()
}

/// Application banner.
#[derive(Debug)]
pub struct Banner;

impl Banner {
    /// The banner at `index`, the smallest first.
    pub fn art(index: usize) -> (r: &'static str)
        ensures
            r@ == banner_art(index as int),
    {
        if index == 0 {
            "gpg-tui"
        } else if index == 1 {
            r#"
 .ydhh/ +mdhh: :hddy.
 sm` ym +m- sd`hy  ys
 sm`--- /h-`sy`yy`:--
 oh`/sh /hsso- hy./mh
 +h-`sy /h.    hd.-my
  :oo+. -o.    `+sy+`-tui
"#
        } else if index == 2 {
            r#"
 -sdmmh+`  sddddho.   /hmmdy:
 :mms:/dmh  ymd//smm: smm+:+hh:
 +mm`  omm` ymh   mdo yho   yds
 +mm`  ```  ohs   hh+ sho   ```
 +md`/ssss  ohy::+hh: hmy yysyo
 /hh`-/shy` ohhyyyo-  yhs //mms
 /hh`  +hy` ohs       yds   dms
 .yho:/yho  sdy       omd+/smm/
  .+syyo:`  +so        -shdhs- 
 `----------` `..... ..  .. `.`
 :ssssssssss- /ydmys dd  dd /m/
                ym`  hd..dd /m/
                oh`  .shhs. :h:
"#
        } else if index == 3 {
            r#"
   `/shddhs:    .hhhhhhyo:      :shdddy/`
  -ddmmddmmmh`  .mmmmmmmmmd-  `ymmmddmmdh-
  hmmh.  .dmms  .mmm/``.ymmm` ommm-  `ohhy
  dmms    hmmy  .mmm:   :mmm. odhs`   /hhd`
  dmms    -//-  .hhh:   -hhh. +hhs`   .:/:
  dmms ```````  .hhh:   :hhh. +hhy``...```
  dmd+ +hhhhho  .hhho//ohhho` smmd`/ddhhmm`
  hhh+ :ooyhho  .hhhhhhddh/`  oddy`.ooymmm`
  yhh+    shho  .hhh/--.`     +hhy`   ommm`
  yhho    shho  .hhh:         odmd`   ommm`
  /hhh+::ohhh:  .ddd:         :mmms:/ommms
   :yhhhhhhs:   .hhh:          -sdmmmmmd+`
  `.-:+oo+:-....-///. ........`.``:/o+-...
  ommmmmmmmmmmmmmmmm/ mmmmmmmyymy  -mm-smy
   `````````````````  ``/mm.``ymy  -mm-smh
                        :mm`  omd:-smm.smh
                        :mm`   +hmmds- smy
                         ``       `     ``
"#
        } else if index == 4 {
            r#"
   /ydmmdy:    ddddddho-    .sdmmmh+`                       
  ymmdssdmmy   mmmyyymmmo  :mmmysydhy.                      
 -mmd`  `mmm-  mmm.  `mmm. hmm/   +hho                      
 -mmd`   hhh-  mmd.   hdh- shh:   :yho                      
 -mmd`         hhh.   yhh- shh:                             
 -mmh`:sssss.  hhh:--+hhy` ymm/`hyysy+ /yyyyyyyy+           
 -dhy`:sshhh-  hhhhhhdds.  hdd:`sshmms +dddddddds           
 -hhy`   yhh-  hhh/::-`    shh:   omms  :yyyyyy/ss.  ss`oy- 
 -hhy`   hhh.  hhh.        ymm/   omms  ./+mmo/-mm-  mm-hm/ 
  shhs//shhs`  ddd.        /mmhoosmmm:     mm.  dm/ -mm.hm/ 
   :syhhys/`   yyy.         .odmmmds.      mm.  -ymmmh/ hm/ 
      ```                      ```         ``     ```   ``` 
"#
        } else if index == 5 {
            r#"
      `-:/:.        ........`           `-:/:.
    +hmmmmmmms-     mmmmmmmmmds-     `+dmmmmmmms.
  `hmdmmhhdmmmm+    mmmmmddmmmmmo   .dmmmmhhdmddh:
  ommmh.   :mmmm.   mmmm-```:dmmm+  smmmy.   :hhhy`
  ymmmo     mmmm:   mmmm-    ommms  yddh/     hhhd-
  ymmmo     yhhh-   mddd-    +hhho  shhh/     syyh.
  ymmmo             hhhh-    +hhho  shhh/
  ymmmo .:::::::`   hhhh-   `shhh+  shdd+ .////::/` `------------
  ymdh+ :hhhhhhh-   hhhhsoooyhhhs.  hmmm+ /dhhhdmm- /mmmmmmmmmmmh`
  shhh+ -osshhhh-   hhhhhhhddmd+`   yddh/ -ossmmmm- :dddddddddddy`
  ohhh+     yhhh-   hhhh+///:.`     shhh/     mmmm-   ossssssss-oo+   .oo:`oo+
  ohhh+     yhhh-   hhhh-           shdd+     mmmm-   yddmmmddd/mmd`  :mmo`mmh`
  +hhhs`   -hhhh-   hhhh-           smmmy`   :mmmm.      ymm-   mmd`  :mmo`mmh`
  `shhhyooshhhh+`   ddmm-           .ddddhsydmmmm+       ymm-   dmm: `smm+`mmh`
   `/yhhhhhhhs:`    hhhh-            `/ymmmmmmmy:        ymm-   .hmmmmmms``mmh`
      .://:-.       .---`               ./++/:`          :++.     ./++:.   ++/
"#
        } else {
            r#"
       -+osyys+-         ++++++++++:.            `/osyyso:`
    `+dmdmmmmmmmmo`      mmmmmmmmmmmmms-       :hmmmmmmmmmmy-
   .dmdmmmmdmmmmmmm-     mmmmmmmmmmmmmmmo     smmmmmmmmmmmddd+
   hmmmmh/.``-ymmmmm.    mmmmm/---:ommmmmo   /mmmmmo.``./yhhhh/
  `mmmmm-      mmmmm:    mmmmm:     /mmmmd`  ymmmmo`     +hhhho`
  `mmmmm-      mmmmm/    mmmmm:     -mmmmd.  shhhh+      /hhhdy`
  `mmmmm-      syyyy:    ddddd-     -hhhhy.  ohhhh+      :syyyo`
  `mmmmm-               `hhhhh-     -hhhhy.  ohhhh+
  `mmmmm-               `hhhhh-     :hhhhy.  ohhhh+
  `mmmmd. .hhhhhhhhh:   `hhhhh:```./yhhhho`  sdmmmo  hmmddhhdmy  -hhhhhhhhhhhhhhh`
  `mmhhh. .hhhhhhhhh:   `hhhhhhhhhhhhhdds.   ymmmmo  yhhhhhmmmy` -mmmmmmmmmmmmmmm.
  `hhhhh. `oooohhhhh:   `hhhhhhhhhdmmmy:`    sdhhh+  /ooohmmmmy` -hhhhhhhhhhhhhhh.
  `hhhhh.      yhhhh:   `hhhhho++++/-.`      ohhhh+      ommmmy`   -ooooooooooo.///-    -//: .+++.
  `hhhhh.      yhhhh:   `hhhhh-              ohhhh+      ommmmy`   :mmmmmmmmmmm-mmms`   smmd`:mmm:
  `hhhhh-      yhhhh:   `hhhhh-              smmmmo      ommmmy`   `///smmmo///.mmmy`   smmd`:mmm:
   shhhhs.   `+hhhhy.   `hhhhh-              +mmmmm/   `/mmmmm+        /mmm:    mmmy`   smmd`:mmm:
   .yhhhhhyyyhhhhhy/`    dmmmm:               sdddhhhddmmmmmmy.        /mmm:    hmmd:``:dmmy`:mmm:
    `+yhhhhhhhhhyo-     `hhhhh-                :shdmmmmmmmmh/`         /mmm:    .hmmmmmmmmh- :mmm:
      `-+ossso+:.`       /++++.                  -+syhhys+-`           :hhh-      -oyhhyo:`  -hhh:
"#
        }
    }

    /// Returns the appropriate sized banner based on the given dimensions.
    pub fn get(rect: Rect) -> (r: String)
        ensures
            r@ == banner_text(rect),
    {
        let rows: u16 = if rect.height >= 4 {
            rect.height - 4
        } else {
            rect.height
        };
        let mut index: usize = BANNER_COUNT - 1;
        let mut found = false;
        while index > 0 && !found
            invariant
                index < BANNER_COUNT,
                rows == banner_rows(rect.height),
                banner_choice(BANNER_COUNT - 1, rect) == banner_choice(index as int, rect),
                found ==> index > 0 && banner_fits(index as int, rect),
            decreases index + if found { 0int } else { 1int },
        {
            let art = lines(Banner::art(index));
            let width = widest_line(&art);
            assert(crate::text::views(art@).len() == art.len());
            if (rows as usize) > art.len() && (rect.width as usize) > width {
                found = true;
            } else {
                index -= 1;
            }
        }
        let mut out = copy_of(Banner::art(index));
        out.append("\n");
        out.append(DESCRIPTION);
        out.append(" (");
        out.append(VERSION);
        out.append(")\nAuthor: ");
        out.append(AUTHORS);
        out.append("\nHomepage: ");
        out.append(HOMEPAGE);
        assert(out@ =~= banner_text(rect));
        out
    }
}

/// The banner that is shown is one of the banners, and unless it is the
/// smallest it fits the area; no bigger banner does.
pub proof fn lemma_banner_choice(index: int, rect: Rect)
    requires
        0 <= index,
    ensures
        0 <= banner_choice(index, rect) <= index,
        banner_choice(index, rect) > 0 ==> banner_fits(banner_choice(index, rect), rect),
        forall|bigger: int|
            banner_choice(index, rect) < bigger <= index ==> !banner_fits(bigger, rect),
    decreases index,
{
    if index > 0 && !banner_fits(index, rect) {
        lemma_banner_choice(index - 1, rect);
    }
}

} // verus!
