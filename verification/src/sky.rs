//! The sky the lunar calendar is read off: the civil day, in China Standard
//! Time, of every new moon and of every December solstice across the years the
//! calendar answers for, and the 30° sector of the sun's longitude each new
//! moon's day begins in, counted from the December solstice.
//!
//! The values follow Jean Meeus, *Astronomical Algorithms* (chapter 49 for the
//! new moons, chapter 25 for the sun), with ΔT interpolated from its measured
//! values, each instant read as a civil day in UTC+8.

use vstd::prelude::*;

verus! {

/// The index of the first tabulated new moon, counted from the new moon of
/// 2000 January 6.
pub const FIRST_NEW_MOON: i64 = -879;

/// The first year whose December solstice is tabulated.
pub const FIRST_SOLSTICE_YEAR: i64 = 1928;

spec fn moon_days_0() -> Seq<i64> {
    seq![-14995i64, -14965i64, -14935i64, -14906i64, -14876i64, -14847i64, -14818i64, -14788i64, -14759i64, -14730i64, -14700i64, -14671i64, -14641i64, -14611i64, -14581i64, -14552i64, -14522i64, -14492i64, -14463i64, -14434i64, -14404i64, -14375i64, -14346i64, -14316i64, -14287i64, -14257i64, -14227i64, -14198i64, -14168i64, -14138i64, -14109i64, -14079i64, -14050i64, -14020i64, -13991i64, -13962i64, -13932i64, -13903i64, -13873i64, -13844i64, -13814i64, -13784i64, -13754i64, -13725i64, -13695i64, -13666i64, -13636i64, -13607i64, -13578i64, -13548i64, -13519i64, -13489i64, -13460i64, -13430i64, -13400i64, -13371i64, -13341i64, -13311i64, -13282i64, -13252i64, -13223i64, -13193i64, -13164i64, -13135i64, -13105i64, -13076i64, -13046i64, -13017i64, -12987i64, -12957i64, -12928i64, -12898i64, -12869i64, -12839i64, -12809i64, -12780i64, -12750i64, -12721i64, -12692i64, -12662i64, -12633i64, -12603i64, -12574i64, -12544i64, -12514i64, -12485i64, -12455i64, -12425i64, -12396i64, -12366i64, -12337i64, -12308i64, -12278i64, -12249i64, -12220i64, -12190i64, -12160i64, -12131i64, -12101i64, -12071i64]
}

spec fn moon_days_1() -> Seq<i64> {
    seq![-12041i64, -12012i64, -11982i64, -11953i64, -11924i64, -11894i64, -11865i64, -11836i64, -11806i64, -11777i64, -11747i64, -11717i64, -11687i64, -11658i64, -11628i64, -11598i64, -11569i64, -11540i64, -11510i64, -11481i64, -11452i64, -11422i64, -11393i64, -11363i64, -11333i64, -11304i64, -11274i64, -11244i64, -11214i64, -11185i64, -11156i64, -11126i64, -11097i64, -11068i64, -11038i64, -11009i64, -10979i64, -10950i64, -10920i64, -10890i64, -10860i64, -10831i64, -10801i64, -10772i64, -10742i64, -10713i64, -10684i64, -10654i64, -10625i64, -10595i64, -10566i64, -10536i64, -10506i64, -10477i64, -10447i64, -10417i64, -10388i64, -10358i64, -10329i64, -10300i64, -10270i64, -10241i64, -10211i64, -10182i64, -10152i64, -10123i64, -10093i64, -10063i64, -10034i64, -10004i64, -9975i64, -9945i64, -9916i64, -9886i64, -9857i64, -9827i64, -9798i64, -9768i64, -9739i64, -9709i64, -9680i64, -9650i64, -9620i64, -9591i64, -9561i64, -9532i64, -9502i64, -9473i64, -9443i64, -9414i64, -9384i64, -9355i64, -9325i64, -9296i64, -9266i64, -9237i64, -9207i64, -9177i64, -9148i64, -9118i64]
}

spec fn moon_days_2() -> Seq<i64> {
    seq![-9088i64, -9059i64, -9030i64, -9000i64, -8971i64, -8942i64, -8912i64, -8883i64, -8853i64, -8823i64, -8793i64, -8764i64, -8734i64, -8704i64, -8675i64, -8646i64, -8616i64, -8587i64, -8558i64, -8528i64, -8499i64, -8469i64, -8439i64, -8410i64, -8380i64, -8350i64, -8320i64, -8291i64, -8262i64, -8232i64, -8203i64, -8174i64, -8144i64, -8115i64, -8085i64, -8056i64, -8026i64, -7996i64, -7966i64, -7937i64, -7907i64, -7878i64, -7848i64, -7819i64, -7790i64, -7760i64, -7731i64, -7701i64, -7672i64, -7642i64, -7612i64, -7583i64, -7553i64, -7523i64, -7494i64, -7464i64, -7435i64, -7406i64, -7376i64, -7347i64, -7317i64, -7288i64, -7258i64, -7229i64, -7199i64, -7169i64, -7140i64, -7110i64, -7080i64, -7051i64, -7022i64, -6992i64, -6963i64, -6933i64, -6904i64, -6874i64, -6845i64, -6815i64, -6785i64, -6756i64, -6726i64, -6697i64, -6667i64, -6638i64, -6608i64, -6579i64, -6549i64, -6520i64, -6490i64, -6461i64, -6431i64, -6402i64, -6372i64, -6343i64, -6313i64, -6283i64, -6254i64, -6224i64, -6195i64, -6165i64]
}

spec fn moon_days_3() -> Seq<i64> {
    seq![-6136i64, -6106i64, -6077i64, -6048i64, -6018i64, -5988i64, -5959i64, -5929i64, -5899i64, -5870i64, -5840i64, -5811i64, -5781i64, -5752i64, -5722i64, -5693i64, -5664i64, -5634i64, -5605i64, -5575i64, -5545i64, -5516i64, -5486i64, -5456i64, -5427i64, -5397i64, -5368i64, -5338i64, -5309i64, -5280i64, -5250i64, -5221i64, -5191i64, -5162i64, -5132i64, -5102i64, -5072i64, -5043i64, -5013i64, -4984i64, -4954i64, -4925i64, -4896i64, -4866i64, -4837i64, -4807i64, -4778i64, -4748i64, -4718i64, -4688i64, -4659i64, -4629i64, -4600i64, -4570i64, -4541i64, -4512i64, -4482i64, -4453i64, -4423i64, -4394i64, -4364i64, -4335i64, -4305i64, -4275i64, -4245i64, -4216i64, -4186i64, -4157i64, -4128i64, -4098i64, -4069i64, -4039i64, -4010i64, -3980i64, -3951i64, -3921i64, -3891i64, -3862i64, -3832i64, -3803i64, -3773i64, -3744i64, -3714i64, -3685i64, -3655i64, -3626i64, -3596i64, -3567i64, -3537i64, -3508i64, -3478i64, -3448i64, -3419i64, -3389i64, -3360i64, -3330i64, -3301i64, -3271i64, -3242i64, -3212i64]
}

spec fn moon_days_4() -> Seq<i64> {
    seq![-3183i64, -3153i64, -3124i64, -3094i64, -3065i64, -3035i64, -3005i64, -2976i64, -2946i64, -2917i64, -2887i64, -2858i64, -2828i64, -2799i64, -2770i64, -2740i64, -2711i64, -2681i64, -2651i64, -2622i64, -2592i64, -2562i64, -2533i64, -2503i64, -2474i64, -2444i64, -2415i64, -2386i64, -2356i64, -2327i64, -2297i64, -2268i64, -2238i64, -2208i64, -2178i64, -2149i64, -2119i64, -2090i64, -2060i64, -2031i64, -2002i64, -1972i64, -1943i64, -1913i64, -1884i64, -1854i64, -1824i64, -1794i64, -1765i64, -1735i64, -1706i64, -1676i64, -1647i64, -1618i64, -1588i64, -1559i64, -1530i64, -1500i64, -1470i64, -1441i64, -1411i64, -1381i64, -1351i64, -1322i64, -1292i64, -1263i64, -1234i64, -1204i64, -1175i64, -1146i64, -1116i64, -1086i64, -1057i64, -1027i64, -997i64, -968i64, -938i64, -908i64, -879i64, -850i64, -820i64, -791i64, -761i64, -732i64, -702i64, -673i64, -643i64, -614i64, -584i64, -554i64, -525i64, -495i64, -466i64, -436i64, -407i64, -377i64, -348i64, -318i64, -289i64, -259i64]
}

spec fn moon_days_5() -> Seq<i64> {
    seq![-230i64, -200i64, -171i64, -141i64, -111i64, -82i64, -52i64, -23i64, 7i64, 36i64, 66i64, 95i64, 124i64, 154i64, 183i64, 213i64, 243i64, 272i64, 302i64, 332i64, 361i64, 391i64, 420i64, 450i64, 479i64, 508i64, 538i64, 567i64, 597i64, 626i64, 656i64, 686i64, 716i64, 745i64, 775i64, 804i64, 834i64, 863i64, 892i64, 922i64, 951i64, 981i64, 1010i64, 1040i64, 1070i64, 1099i64, 1129i64, 1159i64, 1188i64, 1218i64, 1247i64, 1276i64, 1306i64, 1335i64, 1364i64, 1394i64, 1424i64, 1453i64, 1483i64, 1513i64, 1543i64, 1572i64, 1602i64, 1631i64, 1660i64, 1690i64, 1719i64, 1748i64, 1778i64, 1808i64, 1837i64, 1867i64, 1897i64, 1927i64, 1956i64, 1986i64, 2015i64, 2044i64, 2074i64, 2103i64, 2132i64, 2162i64, 2191i64, 2221i64, 2251i64, 2281i64, 2310i64, 2340i64, 2369i64, 2399i64, 2428i64, 2458i64, 2487i64, 2516i64, 2546i64, 2575i64, 2605i64, 2635i64, 2664i64, 2694i64]
}

spec fn moon_days_6() -> Seq<i64> {
    seq![2724i64, 2753i64, 2783i64, 2812i64, 2842i64, 2871i64, 2901i64, 2930i64, 2959i64, 2989i64, 3018i64, 3048i64, 3078i64, 3107i64, 3137i64, 3167i64, 3196i64, 3226i64, 3255i64, 3285i64, 3314i64, 3344i64, 3373i64, 3402i64, 3432i64, 3461i64, 3491i64, 3521i64, 3550i64, 3580i64, 3610i64, 3639i64, 3669i64, 3698i64, 3728i64, 3757i64, 3786i64, 3816i64, 3845i64, 3875i64, 3904i64, 3934i64, 3964i64, 3993i64, 4023i64, 4053i64, 4082i64, 4112i64, 4141i64, 4170i64, 4200i64, 4229i64, 4258i64, 4288i64, 4318i64, 4347i64, 4377i64, 4407i64, 4437i64, 4466i64, 4496i64, 4525i64, 4554i64, 4584i64, 4613i64, 4642i64, 4672i64, 4701i64, 4731i64, 4761i64, 4791i64, 4821i64, 4850i64, 4880i64, 4909i64, 4938i64, 4968i64, 4997i64, 5026i64, 5056i64, 5085i64, 5115i64, 5145i64, 5175i64, 5204i64, 5234i64, 5264i64, 5293i64, 5322i64, 5352i64, 5381i64, 5410i64, 5440i64, 5469i64, 5499i64, 5529i64, 5558i64, 5588i64, 5618i64, 5647i64]
}

spec fn moon_days_7() -> Seq<i64> {
    seq![5677i64, 5706i64, 5736i64, 5765i64, 5794i64, 5824i64, 5853i64, 5883i64, 5912i64, 5942i64, 5972i64, 6001i64, 6031i64, 6061i64, 6090i64, 6120i64, 6149i64, 6179i64, 6208i64, 6237i64, 6267i64, 6296i64, 6326i64, 6355i64, 6385i64, 6415i64, 6444i64, 6474i64, 6504i64, 6533i64, 6563i64, 6592i64, 6621i64, 6651i64, 6680i64, 6710i64, 6739i64, 6769i64, 6798i64, 6828i64, 6858i64, 6887i64, 6917i64, 6947i64, 6976i64, 7006i64, 7035i64, 7064i64, 7094i64, 7123i64, 7153i64, 7182i64, 7212i64, 7241i64, 7271i64, 7301i64, 7331i64, 7360i64, 7390i64, 7419i64, 7448i64, 7478i64, 7507i64, 7536i64, 7566i64, 7595i64, 7625i64, 7655i64, 7685i64, 7715i64, 7744i64, 7774i64, 7803i64, 7832i64, 7862i64, 7891i64, 7920i64, 7950i64, 7979i64, 8009i64, 8039i64, 8069i64, 8098i64, 8128i64, 8158i64, 8187i64, 8216i64, 8246i64, 8275i64, 8304i64, 8334i64, 8363i64, 8393i64, 8423i64, 8452i64, 8482i64, 8512i64, 8541i64, 8571i64, 8600i64]
}

spec fn moon_days_8() -> Seq<i64> {
    seq![8630i64, 8659i64, 8688i64, 8718i64, 8747i64, 8777i64, 8806i64, 8836i64, 8866i64, 8896i64, 8925i64, 8955i64, 8984i64, 9014i64, 9043i64, 9072i64, 9102i64, 9131i64, 9161i64, 9190i64, 9220i64, 9250i64, 9279i64, 9309i64, 9338i64, 9368i64, 9398i64, 9427i64, 9456i64, 9486i64, 9515i64, 9545i64, 9574i64, 9604i64, 9633i64, 9663i64, 9693i64, 9722i64, 9752i64, 9781i64, 9811i64, 9841i64, 9870i64, 9899i64, 9929i64, 9958i64, 9988i64, 10017i64, 10047i64, 10076i64, 10106i64, 10136i64, 10165i64, 10195i64, 10225i64, 10254i64, 10284i64, 10313i64, 10342i64, 10372i64, 10401i64, 10430i64, 10460i64, 10490i64, 10519i64, 10549i64, 10579i64, 10608i64, 10638i64, 10668i64, 10697i64, 10726i64, 10756i64, 10785i64, 10814i64, 10844i64, 10873i64, 10903i64, 10933i64, 10963i64, 10992i64, 11022i64, 11052i64, 11081i64, 11110i64, 11140i64, 11169i64, 11198i64, 11228i64, 11257i64, 11287i64, 11317i64, 11346i64, 11376i64, 11406i64, 11435i64, 11465i64, 11494i64, 11524i64, 11553i64]
}

spec fn moon_days_9() -> Seq<i64> {
    seq![11582i64, 11612i64, 11641i64, 11671i64, 11700i64, 11730i64, 11760i64, 11790i64, 11819i64, 11849i64, 11878i64, 11908i64, 11937i64, 11966i64, 11996i64, 12025i64, 12055i64, 12084i64, 12114i64, 12144i64, 12173i64, 12203i64, 12233i64, 12262i64, 12292i64, 12321i64, 12350i64, 12380i64, 12409i64, 12439i64, 12468i64, 12498i64, 12527i64, 12557i64, 12587i64, 12616i64, 12646i64, 12675i64, 12705i64, 12734i64, 12764i64, 12793i64, 12823i64, 12852i64, 12882i64, 12911i64, 12941i64, 12970i64, 13000i64, 13030i64, 13059i64, 13089i64, 13118i64, 13148i64, 13177i64, 13207i64, 13236i64, 13266i64, 13295i64, 13325i64, 13354i64, 13384i64, 13413i64, 13443i64, 13473i64, 13502i64, 13532i64, 13562i64, 13591i64, 13620i64, 13650i64, 13679i64, 13708i64, 13738i64, 13767i64, 13797i64, 13827i64, 13857i64, 13886i64, 13916i64, 13946i64, 13975i64, 14004i64, 14034i64, 14063i64, 14092i64, 14122i64, 14151i64, 14181i64, 14211i64, 14240i64, 14270i64, 14300i64, 14330i64, 14359i64, 14388i64, 14418i64, 14447i64, 14476i64, 14506i64]
}

spec fn moon_days_10() -> Seq<i64> {
    seq![14535i64, 14565i64, 14594i64, 14624i64, 14654i64, 14684i64, 14713i64, 14743i64, 14772i64, 14802i64, 14831i64, 14860i64, 14890i64, 14919i64, 14949i64, 14978i64, 15008i64, 15038i64, 15067i64, 15097i64, 15127i64, 15156i64, 15186i64, 15215i64, 15244i64, 15274i64, 15303i64, 15333i64, 15362i64, 15392i64, 15421i64, 15451i64, 15481i64, 15510i64, 15540i64, 15569i64, 15599i64, 15628i64, 15658i64, 15687i64, 15717i64, 15746i64, 15776i64, 15805i64, 15835i64, 15864i64, 15894i64, 15924i64, 15953i64, 15983i64, 16012i64, 16042i64, 16071i64, 16101i64, 16130i64, 16160i64, 16189i64, 16219i64, 16248i64, 16278i64, 16307i64, 16337i64, 16367i64, 16396i64, 16426i64, 16455i64, 16485i64, 16514i64, 16544i64, 16573i64, 16602i64, 16632i64, 16661i64, 16691i64, 16721i64, 16751i64, 16780i64, 16810i64, 16839i64, 16869i64, 16898i64, 16928i64, 16957i64, 16986i64, 17016i64, 17045i64, 17075i64, 17105i64, 17134i64, 17164i64, 17194i64, 17223i64, 17253i64, 17282i64, 17312i64, 17341i64, 17370i64, 17400i64, 17429i64, 17459i64]
}

spec fn moon_days_11() -> Seq<i64> {
    seq![17488i64, 17518i64, 17548i64, 17578i64, 17607i64, 17637i64, 17666i64, 17696i64, 17725i64, 17754i64, 17784i64, 17813i64, 17843i64, 17872i64, 17902i64, 17932i64, 17962i64, 17991i64, 18021i64, 18050i64, 18080i64, 18109i64, 18138i64, 18168i64, 18197i64, 18226i64, 18256i64, 18286i64, 18315i64, 18345i64, 18375i64, 18405i64, 18434i64, 18464i64, 18493i64, 18522i64, 18552i64, 18581i64, 18611i64, 18640i64, 18670i64, 18699i64, 18729i64, 18759i64, 18788i64, 18818i64, 18847i64, 18877i64, 18906i64, 18936i64, 18965i64, 18995i64, 19024i64, 19054i64, 19083i64, 19113i64, 19142i64, 19172i64, 19202i64, 19231i64, 19261i64, 19290i64, 19320i64, 19349i64, 19379i64, 19408i64, 19438i64, 19467i64, 19496i64, 19526i64, 19556i64, 19585i64, 19615i64, 19645i64, 19674i64, 19704i64, 19733i64, 19763i64, 19792i64, 19822i64, 19851i64, 19880i64, 19910i64, 19939i64, 19969i64, 19999i64, 20028i64, 20058i64, 20088i64, 20117i64, 20147i64, 20176i64, 20206i64, 20235i64, 20264i64, 20294i64, 20323i64, 20353i64, 20382i64, 20412i64]
}

spec fn moon_days_12() -> Seq<i64> {
    seq![20442i64, 20472i64, 20501i64, 20531i64, 20560i64, 20590i64, 20619i64, 20648i64, 20678i64, 20707i64, 20736i64, 20766i64, 20796i64, 20826i64, 20855i64, 20885i64, 20915i64, 20944i64, 20974i64, 21003i64, 21032i64, 21062i64, 21091i64, 21120i64, 21150i64, 21180i64, 21209i64, 21239i64, 21269i64, 21299i64, 21328i64, 21358i64, 21387i64, 21416i64, 21446i64, 21475i64, 21504i64, 21534i64, 21564i64, 21593i64, 21623i64, 21653i64, 21682i64, 21712i64, 21741i64, 21771i64, 21800i64, 21830i64, 21859i64, 21888i64, 21918i64, 21948i64, 21977i64, 22007i64, 22036i64, 22066i64, 22096i64, 22125i64, 22155i64, 22184i64, 22214i64, 22243i64, 22273i64, 22302i64, 22331i64, 22361i64, 22391i64, 22420i64, 22450i64, 22479i64, 22509i64, 22539i64, 22568i64, 22598i64, 22627i64, 22657i64, 22686i64, 22716i64, 22745i64, 22774i64, 22804i64, 22833i64, 22863i64, 22893i64, 22922i64, 22952i64, 22982i64, 23011i64, 23041i64, 23070i64, 23100i64, 23129i64, 23158i64, 23188i64, 23217i64, 23247i64, 23276i64, 23306i64, 23336i64, 23366i64]
}

spec fn moon_days_13() -> Seq<i64> {
    seq![23395i64, 23425i64, 23454i64, 23484i64, 23513i64, 23542i64, 23572i64, 23601i64, 23631i64, 23660i64, 23690i64, 23720i64, 23749i64, 23779i64, 23809i64, 23838i64, 23868i64, 23897i64, 23926i64, 23956i64, 23985i64, 24014i64, 24044i64, 24074i64, 24103i64, 24133i64, 24163i64, 24193i64, 24222i64, 24252i64, 24281i64, 24310i64, 24340i64, 24369i64, 24398i64, 24428i64, 24457i64, 24487i64, 24517i64, 24547i64, 24577i64, 24606i64, 24636i64, 24665i64, 24694i64, 24724i64, 24753i64, 24782i64, 24812i64, 24841i64, 24871i64, 24901i64, 24931i64, 24960i64, 24990i64, 25019i64, 25049i64, 25078i64, 25108i64, 25137i64, 25166i64, 25196i64, 25225i64, 25255i64, 25285i64, 25314i64, 25344i64, 25374i64, 25403i64, 25433i64, 25462i64, 25492i64, 25521i64, 25551i64, 25580i64, 25609i64, 25639i64, 25668i64, 25698i64, 25728i64, 25757i64, 25787i64, 25816i64, 25846i64, 25876i64, 25905i64, 25935i64, 25964i64, 25993i64, 26023i64, 26052i64, 26082i64, 26111i64, 26141i64, 26171i64, 26200i64, 26230i64, 26260i64, 26289i64, 26319i64]
}

spec fn moon_days_14() -> Seq<i64> {
    seq![26348i64, 26378i64, 26407i64, 26436i64, 26466i64, 26495i64, 26525i64, 26554i64, 26584i64, 26614i64, 26643i64, 26673i64, 26703i64, 26732i64, 26762i64, 26791i64, 26820i64, 26850i64, 26879i64, 26908i64, 26938i64, 26968i64, 26997i64, 27027i64, 27057i64, 27087i64, 27116i64, 27146i64, 27175i64, 27204i64, 27234i64, 27263i64, 27292i64, 27322i64, 27351i64, 27381i64, 27411i64, 27441i64, 27471i64, 27500i64, 27530i64, 27559i64, 27588i64, 27618i64, 27647i64, 27676i64, 27706i64, 27735i64, 27765i64, 27795i64, 27825i64, 27854i64, 27884i64, 27913i64, 27943i64, 27972i64, 28002i64, 28031i64, 28060i64, 28090i64, 28119i64, 28149i64, 28179i64, 28208i64, 28238i64, 28268i64, 28297i64, 28327i64, 28356i64, 28386i64, 28415i64, 28444i64, 28474i64, 28503i64, 28533i64, 28562i64, 28592i64, 28622i64, 28651i64, 28681i64, 28711i64, 28740i64, 28770i64, 28799i64, 28828i64, 28858i64, 28887i64, 28917i64, 28946i64, 28976i64, 29005i64, 29035i64, 29065i64, 29094i64, 29124i64, 29154i64, 29183i64, 29213i64, 29242i64, 29271i64]
}

spec fn moon_days_15() -> Seq<i64> {
    seq![29301i64, 29330i64, 29360i64, 29389i64, 29419i64, 29448i64, 29478i64, 29508i64, 29537i64, 29567i64, 29597i64, 29626i64, 29656i64, 29685i64, 29714i64, 29744i64, 29773i64, 29802i64, 29832i64, 29862i64, 29891i64, 29921i64, 29951i64, 29981i64, 30010i64, 30040i64, 30069i64, 30098i64, 30128i64, 30157i64, 30186i64, 30216i64, 30245i64, 30275i64, 30305i64, 30335i64, 30365i64, 30394i64, 30424i64, 30453i64, 30482i64, 30512i64, 30541i64, 30570i64, 30600i64, 30629i64, 30659i64, 30689i64, 30719i64, 30748i64, 30778i64, 30808i64, 30837i64, 30866i64, 30896i64, 30925i64, 30954i64, 30984i64, 31013i64, 31043i64, 31073i64, 31102i64, 31132i64, 31162i64, 31191i64, 31221i64, 31250i64, 31280i64, 31309i64, 31338i64, 31368i64, 31397i64, 31427i64, 31456i64, 31486i64, 31516i64, 31546i64, 31575i64, 31605i64, 31634i64, 31664i64, 31693i64, 31722i64, 31752i64, 31781i64, 31811i64, 31840i64, 31870i64, 31900i64, 31929i64, 31959i64, 31988i64, 32018i64, 32047i64, 32077i64, 32106i64, 32136i64, 32165i64, 32195i64, 32224i64]
}

spec fn moon_days_16() -> Seq<i64> {
    seq![32254i64, 32283i64, 32313i64, 32342i64, 32372i64, 32402i64, 32431i64, 32461i64, 32491i64, 32520i64, 32549i64, 32579i64, 32608i64, 32638i64, 32667i64, 32697i64, 32726i64, 32756i64, 32785i64, 32815i64, 32845i64, 32875i64, 32904i64, 32934i64, 32963i64, 32992i64, 33022i64, 33051i64, 33080i64, 33110i64, 33139i64, 33169i64, 33199i64, 33229i64, 33258i64, 33288i64, 33318i64, 33347i64, 33376i64, 33406i64, 33435i64, 33464i64, 33494i64, 33523i64, 33553i64, 33583i64, 33613i64, 33642i64, 33672i64, 33702i64, 33731i64, 33760i64, 33790i64, 33819i64, 33848i64, 33878i64, 33907i64, 33937i64, 33967i64, 33996i64, 34026i64, 34056i64, 34085i64, 34115i64, 34144i64, 34174i64, 34203i64, 34232i64, 34262i64, 34291i64, 34321i64, 34350i64, 34380i64, 34410i64, 34440i64, 34469i64, 34499i64, 34528i64, 34558i64, 34587i64, 34616i64, 34646i64, 34675i64, 34705i64, 34734i64, 34764i64, 34794i64, 34823i64, 34853i64, 34883i64, 34912i64, 34942i64, 34971i64, 35000i64, 35030i64, 35059i64, 35089i64, 35118i64, 35148i64, 35177i64]
}

spec fn moon_days_17() -> Seq<i64> {
    seq![35207i64, 35237i64, 35266i64, 35296i64, 35325i64, 35355i64, 35384i64, 35414i64, 35443i64, 35473i64, 35502i64, 35532i64, 35561i64, 35591i64, 35620i64, 35650i64, 35680i64, 35709i64, 35739i64, 35768i64, 35798i64, 35827i64, 35857i64, 35886i64, 35916i64, 35945i64, 35974i64, 36004i64, 36034i64, 36063i64, 36093i64, 36123i64, 36152i64, 36182i64, 36211i64, 36241i64, 36270i64, 36300i64, 36329i64, 36358i64, 36388i64, 36417i64, 36447i64, 36477i64, 36507i64, 36536i64, 36566i64, 36595i64, 36625i64, 36654i64, 36684i64, 36713i64, 36742i64, 36772i64, 36801i64, 36831i64, 36861i64, 36890i64, 36920i64, 36950i64, 36979i64, 37009i64, 37038i64, 37068i64, 37097i64, 37126i64, 37156i64, 37185i64, 37215i64, 37244i64, 37274i64, 37304i64, 37334i64, 37363i64, 37393i64, 37422i64, 37452i64, 37481i64, 37510i64, 37540i64, 37569i64, 37599i64, 37628i64, 37658i64, 37688i64, 37717i64, 37747i64, 37777i64, 37806i64, 37836i64, 37865i64, 37894i64, 37924i64, 37953i64, 37983i64, 38012i64, 38042i64, 38071i64, 38101i64, 38131i64]
}

spec fn moon_days_18() -> Seq<i64> {
    seq![38160i64, 38190i64, 38219i64, 38249i64, 38278i64, 38308i64, 38337i64, 38367i64, 38396i64, 38426i64, 38455i64, 38485i64, 38514i64, 38544i64, 38574i64, 38603i64, 38633i64, 38662i64, 38692i64, 38721i64, 38751i64, 38780i64, 38810i64, 38839i64, 38869i64, 38898i64, 38928i64, 38957i64, 38987i64, 39017i64, 39046i64, 39076i64, 39105i64, 39135i64, 39164i64, 39194i64, 39223i64, 39252i64, 39282i64, 39311i64, 39341i64, 39371i64, 39401i64, 39430i64, 39460i64, 39489i64, 39519i64, 39548i64, 39578i64, 39607i64, 39636i64, 39666i64, 39695i64, 39725i64, 39755i64, 39784i64, 39814i64, 39844i64, 39873i64, 39903i64, 39932i64, 39962i64, 39991i64, 40020i64, 40050i64, 40079i64, 40109i64, 40138i64, 40168i64, 40198i64, 40228i64, 40257i64, 40287i64, 40316i64, 40346i64, 40375i64, 40404i64, 40434i64, 40463i64, 40492i64, 40522i64, 40552i64, 40582i64, 40611i64, 40641i64, 40671i64, 40700i64, 40730i64, 40759i64, 40788i64, 40818i64, 40847i64, 40876i64, 40906i64, 40936i64, 40965i64, 40995i64, 41025i64, 41055i64, 41084i64]
}

spec fn moon_days_19() -> Seq<i64> {
    seq![41113i64, 41143i64, 41172i64, 41202i64, 41231i64, 41260i64, 41290i64, 41320i64, 41349i64, 41379i64, 41409i64, 41438i64, 41468i64, 41497i64, 41527i64, 41556i64, 41586i64, 41615i64, 41645i64, 41674i64, 41704i64, 41733i64, 41763i64, 41792i64, 41822i64, 41852i64, 41881i64, 41911i64, 41940i64, 41970i64, 41999i64, 42029i64, 42058i64, 42088i64, 42117i64, 42146i64, 42176i64, 42206i64, 42235i64, 42265i64, 42295i64, 42324i64, 42354i64, 42383i64, 42413i64, 42442i64, 42472i64, 42501i64, 42530i64, 42560i64, 42589i64, 42619i64, 42649i64, 42678i64, 42708i64, 42738i64, 42767i64, 42797i64, 42826i64, 42856i64, 42885i64, 42914i64, 42944i64, 42973i64, 43003i64, 43032i64, 43062i64, 43092i64, 43122i64, 43151i64, 43181i64, 43210i64, 43240i64, 43269i64, 43298i64, 43328i64, 43357i64, 43386i64, 43416i64, 43446i64, 43476i64, 43505i64, 43535i64, 43565i64, 43594i64, 43624i64, 43653i64, 43682i64, 43711i64, 43741i64, 43770i64, 43800i64, 43830i64, 43859i64, 43889i64, 43919i64, 43949i64, 43978i64, 44008i64, 44037i64]
}

spec fn moon_days_20() -> Seq<i64> {
    seq![44066i64, 44096i64, 44125i64, 44154i64, 44184i64, 44214i64, 44243i64, 44273i64, 44303i64, 44332i64, 44362i64, 44391i64, 44421i64, 44450i64, 44480i64, 44509i64, 44538i64, 44568i64, 44597i64, 44627i64, 44657i64, 44686i64, 44716i64, 44746i64, 44775i64, 44805i64, 44834i64, 44864i64, 44893i64, 44923i64, 44952i64, 44981i64, 45011i64, 45041i64, 45070i64, 45100i64, 45129i64, 45159i64, 45189i64, 45218i64, 45248i64, 45277i64, 45307i64, 45336i64, 45365i64, 45395i64, 45424i64, 45454i64, 45483i64, 45513i64, 45543i64, 45572i64, 45602i64, 45632i64, 45661i64, 45691i64, 45720i64, 45750i64, 45779i64, 45808i64, 45838i64, 45867i64, 45897i64, 45926i64, 45956i64, 45986i64, 46016i64, 46045i64, 46075i64, 46104i64, 46134i64, 46163i64, 46192i64, 46222i64, 46251i64, 46280i64, 46310i64, 46340i64, 46370i64, 46399i64, 46429i64, 46459i64, 46488i64, 46518i64, 46547i64, 46576i64, 46605i64, 46635i64, 46664i64, 46694i64, 46724i64, 46753i64, 46783i64, 46813i64, 46843i64, 46872i64, 46902i64, 46931i64, 46960i64, 46989i64]
}

spec fn moon_days_21() -> Seq<i64> {
    seq![47019i64, 47048i64, 47078i64, 47107i64, 47137i64, 47167i64, 47197i64, 47226i64, 47256i64, 47286i64, 47315i64, 47344i64, 47374i64, 47403i64, 47432i64, 47462i64, 47491i64, 47521i64, 47551i64, 47581i64, 47610i64, 47640i64, 47669i64, 47699i64, 47728i64, 47758i64, 47787i64, 47816i64, 47846i64, 47875i64, 47905i64, 47935i64, 47964i64, 47994i64, 48024i64, 48053i64, 48083i64, 48112i64, 48142i64, 48171i64, 48200i64, 48230i64]
}

/// The civil day (days since 1970-01-01) of each tabulated new moon.
pub closed spec fn moon_days() -> Seq<i64> {
    moon_days_0()
        + moon_days_1()
        + moon_days_2()
        + moon_days_3()
        + moon_days_4()
        + moon_days_5()
        + moon_days_6()
        + moon_days_7()
        + moon_days_8()
        + moon_days_9()
        + moon_days_10()
        + moon_days_11()
        + moon_days_12()
        + moon_days_13()
        + moon_days_14()
        + moon_days_15()
        + moon_days_16()
        + moon_days_17()
        + moon_days_18()
        + moon_days_19()
        + moon_days_20()
        + moon_days_21()
}

spec fn moon_sectors_0() -> Seq<u8> {
    seq![11u8, 0u8, 1u8, 2u8, 3u8, 4u8, 5u8, 6u8, 7u8, 8u8, 9u8, 10u8, 11u8, 0u8, 1u8, 2u8, 3u8, 4u8, 5u8, 6u8, 7u8, 7u8, 8u8, 9u8, 10u8, 11u8, 0u8, 1u8, 2u8, 3u8, 4u8, 5u8, 6u8, 7u8, 8u8, 9u8, 10u8, 11u8, 0u8, 1u8, 2u8, 3u8, 4u8, 5u8, 6u8, 7u8, 8u8, 9u8, 10u8, 11u8, 0u8, 1u8, 2u8, 3u8, 4u8, 5u8, 6u8, 6u8, 7u8, 8u8, 9u8, 10u8, 11u8, 0u8, 1u8, 2u8, 3u8, 4u8, 5u8, 6u8, 7u8, 8u8, 9u8, 10u8, 11u8, 0u8, 1u8, 2u8, 3u8, 4u8, 5u8, 6u8, 7u8, 8u8, 9u8, 10u8, 11u8, 0u8, 1u8, 2u8, 3u8, 4u8, 4u8, 5u8, 6u8, 7u8, 8u8, 9u8, 10u8, 11u8]
}

spec fn moon_sectors_1() -> Seq<u8> {
    seq![0u8, 1u8, 2u8, 3u8, 4u8, 5u8, 6u8, 7u8, 8u8, 9u8, 10u8, 11u8, 0u8, 1u8, 2u8, 3u8, 4u8, 5u8, 6u8, 7u8, 8u8, 8u8, 9u8, 10u8, 11u8, 0u8, 1u8, 2u8, 3u8, 4u8, 5u8, 6u8, 7u8, 8u8, 9u8, 10u8, 11u8, 0u8, 1u8, 2u8, 3u8, 4u8, 5u8, 6u8, 7u8, 8u8, 9u8, 10u8, 11u8, 0u8, 1u8, 2u8, 3u8, 4u8, 5u8, 6u8, 7u8, 7u8, 8u8, 9u8, 10u8, 11u8, 0u8, 1u8, 2u8, 3u8, 4u8, 5u8, 6u8, 7u8, 8u8, 9u8, 10u8, 11u8, 0u8, 1u8, 2u8, 3u8, 4u8, 5u8, 6u8, 7u8, 8u8, 9u8, 10u8, 11u8, 0u8, 1u8, 2u8, 3u8, 4u8, 5u8, 5u8, 6u8, 7u8, 8u8, 9u8, 10u8, 11u8, 0u8]
}

spec fn moon_sectors_2() -> Seq<u8> {
    seq![1u8, 2u8, 3u8, 4u8, 5u8, 6u8, 7u8, 8u8, 9u8, 10u8, 11u8, 0u8, 1u8, 2u8, 3u8, 4u8, 5u8, 6u8, 7u8, 8u8, 9u8, 10u8, 11u8, 0u8, 1u8, 2u8, 3u8, 3u8, 4u8, 5u8, 6u8, 7u8, 8u8, 9u8, 10u8, 11u8, 0u8, 1u8, 2u8, 3u8, 4u8, 5u8, 6u8, 7u8, 8u8, 9u8, 10u8, 11u8, 0u8, 1u8, 2u8, 3u8, 4u8, 5u8, 6u8, 7u8, 8u8, 8u8, 9u8, 10u8, 11u8, 0u8, 1u8, 2u8, 3u8, 4u8, 5u8, 6u8, 7u8, 8u8, 9u8, 10u8, 11u8, 0u8, 1u8, 2u8, 3u8, 4u8, 5u8, 6u8, 7u8, 8u8, 9u8, 10u8, 11u8, 0u8, 1u8, 2u8, 3u8, 4u8, 5u8, 6u8, 6u8, 7u8, 8u8, 9u8, 10u8, 11u8, 0u8, 1u8]
}

spec fn moon_sectors_3() -> Seq<u8> {
    seq![2u8, 3u8, 4u8, 5u8, 6u8, 7u8, 8u8, 9u8, 10u8, 11u8, 0u8, 1u8, 2u8, 3u8, 4u8, 5u8, 6u8, 7u8, 8u8, 9u8, 10u8, 11u8, 0u8, 1u8, 2u8, 3u8, 4u8, 4u8, 5u8, 6u8, 7u8, 8u8, 9u8, 10u8, 11u8, 0u8, 1u8, 2u8, 3u8, 4u8, 5u8, 6u8, 7u8, 8u8, 9u8, 10u8, 11u8, 0u8, 1u8, 2u8, 3u8, 4u8, 5u8, 6u8, 7u8, 8u8, 9u8, 9u8, 10u8, 11u8, 0u8, 1u8, 2u8, 3u8, 4u8, 5u8, 6u8, 7u8, 8u8, 9u8, 10u8, 11u8, 0u8, 1u8, 2u8, 3u8, 4u8, 5u8, 6u8, 7u8, 8u8, 9u8, 10u8, 11u8, 0u8, 1u8, 2u8, 3u8, 4u8, 5u8, 6u8, 7u8, 7u8, 8u8, 9u8, 10u8, 11u8, 0u8, 1u8, 2u8]
}

spec fn moon_sectors_4() -> Seq<u8> {
    seq![3u8, 4u8, 5u8, 6u8, 7u8, 8u8, 9u8, 10u8, 11u8, 0u8, 1u8, 2u8, 3u8, 4u8, 5u8, 6u8, 7u8, 8u8, 9u8, 10u8, 11u8, 0u8, 1u8, 2u8, 3u8, 4u8, 5u8, 5u8, 6u8, 7u8, 8u8, 9u8, 10u8, 11u8, 0u8, 1u8, 2u8, 3u8, 4u8, 5u8, 6u8, 7u8, 8u8, 9u8, 10u8, 11u8, 0u8, 1u8, 2u8, 3u8, 4u8, 5u8, 6u8, 7u8, 8u8, 9u8, 10u8, 11u8, 0u8, 1u8, 2u8, 3u8, 4u8, 4u8, 5u8, 6u8, 7u8, 8u8, 9u8, 10u8, 11u8, 0u8, 1u8, 2u8, 3u8, 4u8, 5u8, 6u8, 7u8, 8u8, 9u8, 10u8, 11u8, 0u8, 1u8, 2u8, 3u8, 4u8, 5u8, 6u8, 7u8, 8u8, 8u8, 9u8, 10u8, 11u8, 0u8, 1u8, 2u8, 3u8]
}

spec fn moon_sectors_5() -> Seq<u8> {
    seq![4u8, 5u8, 6u8, 7u8, 8u8, 9u8, 10u8, 11u8, 0u8, 1u8, 2u8, 3u8, 4u8, 5u8, 6u8, 7u8, 8u8, 9u8, 10u8, 11u8, 0u8, 1u8, 2u8, 3u8, 4u8, 5u8, 6u8, 6u8, 7u8, 8u8, 9u8, 10u8, 11u8, 0u8, 1u8, 2u8, 3u8, 4u8, 5u8, 6u8, 7u8, 8u8, 9u8, 10u8, 11u8, 0u8, 1u8, 2u8, 3u8, 4u8, 5u8, 6u8, 7u8, 8u8, 9u8, 10u8, 11u8, 0u8, 1u8, 2u8, 3u8, 4u8, 5u8, 5u8, 6u8, 7u8, 8u8, 9u8, 10u8, 11u8, 0u8, 1u8, 2u8, 3u8, 4u8, 5u8, 6u8, 7u8, 8u8, 9u8, 10u8, 11u8, 0u8, 1u8, 2u8, 3u8, 4u8, 5u8, 6u8, 7u8, 8u8, 9u8, 9u8, 10u8, 11u8, 0u8, 1u8, 2u8, 3u8, 4u8]
}

spec fn moon_sectors_6() -> Seq<u8> {
    seq![5u8, 6u8, 7u8, 8u8, 9u8, 10u8, 11u8, 0u8, 1u8, 2u8, 3u8, 4u8, 5u8, 6u8, 7u8, 8u8, 9u8, 10u8, 11u8, 0u8, 1u8, 2u8, 3u8, 4u8, 5u8, 6u8, 7u8, 7u8, 8u8, 9u8, 10u8, 11u8, 0u8, 1u8, 2u8, 3u8, 4u8, 5u8, 6u8, 7u8, 8u8, 9u8, 10u8, 11u8, 0u8, 1u8, 2u8, 3u8, 4u8, 5u8, 6u8, 7u8, 8u8, 9u8, 10u8, 11u8, 0u8, 1u8, 2u8, 3u8, 4u8, 5u8, 5u8, 6u8, 7u8, 8u8, 9u8, 10u8, 11u8, 0u8, 1u8, 2u8, 3u8, 4u8, 5u8, 6u8, 7u8, 8u8, 9u8, 10u8, 11u8, 0u8, 1u8, 2u8, 3u8, 4u8, 5u8, 6u8, 7u8, 8u8, 9u8, 10u8, 11u8, 11u8, 1u8, 2u8, 2u8, 3u8, 4u8, 5u8]
}

spec fn moon_sectors_7() -> Seq<u8> {
    seq![6u8, 7u8, 8u8, 9u8, 10u8, 11u8, 0u8, 1u8, 2u8, 3u8, 4u8, 5u8, 6u8, 7u8, 8u8, 9u8, 10u8, 11u8, 0u8, 1u8, 2u8, 3u8, 4u8, 5u8, 6u8, 7u8, 7u8, 8u8, 9u8, 10u8, 11u8, 0u8, 1u8, 2u8, 3u8, 4u8, 5u8, 6u8, 7u8, 8u8, 9u8, 10u8, 11u8, 0u8, 1u8, 2u8, 3u8, 4u8, 5u8, 6u8, 7u8, 8u8, 9u8, 10u8, 11u8, 0u8, 1u8, 2u8, 3u8, 4u8, 5u8, 6u8, 6u8, 7u8, 8u8, 9u8, 10u8, 11u8, 0u8, 1u8, 2u8, 3u8, 4u8, 5u8, 6u8, 7u8, 8u8, 9u8, 10u8, 11u8, 0u8, 1u8, 2u8, 3u8, 4u8, 5u8, 6u8, 7u8, 8u8, 9u8, 10u8, 11u8, 0u8, 1u8, 2u8, 3u8, 4u8, 4u8, 5u8, 6u8]
}

spec fn moon_sectors_8() -> Seq<u8> {
    seq![7u8, 8u8, 9u8, 10u8, 11u8, 0u8, 1u8, 2u8, 3u8, 4u8, 5u8, 6u8, 7u8, 8u8, 9u8, 10u8, 11u8, 0u8, 1u8, 2u8, 3u8, 4u8, 5u8, 6u8, 7u8, 8u8, 9u8, 9u8, 10u8, 11u8, 0u8, 1u8, 2u8, 3u8, 4u8, 5u8, 6u8, 7u8, 8u8, 9u8, 10u8, 11u8, 0u8, 1u8, 2u8, 3u8, 4u8, 5u8, 6u8, 7u8, 8u8, 9u8, 10u8, 11u8, 0u8, 1u8, 2u8, 3u8, 4u8, 5u8, 6u8, 6u8, 7u8, 8u8, 9u8, 10u8, 11u8, 0u8, 1u8, 2u8, 3u8, 4u8, 5u8, 6u8, 7u8, 8u8, 9u8, 10u8, 11u8, 0u8, 1u8, 2u8, 3u8, 4u8, 5u8, 6u8, 7u8, 8u8, 9u8, 10u8, 11u8, 0u8, 1u8, 2u8, 3u8, 4u8, 5u8, 5u8, 6u8, 7u8]
}

spec fn moon_sectors_9() -> Seq<u8> {
    seq![8u8, 9u8, 10u8, 11u8, 0u8, 1u8, 2u8, 3u8, 4u8, 5u8, 6u8, 7u8, 8u8, 9u8, 10u8, 11u8, 0u8, 1u8, 2u8, 3u8, 4u8, 5u8, 6u8, 7u8, 8u8, 9u8, 10u8, 11u8, 0u8, 1u8, 2u8, 3u8, 3u8, 4u8, 5u8, 6u8, 7u8, 8u8, 9u8, 10u8, 11u8, 0u8, 1u8, 2u8, 3u8, 4u8, 5u8, 6u8, 7u8, 8u8, 9u8, 10u8, 11u8, 0u8, 1u8, 2u8, 3u8, 4u8, 5u8, 6u8, 7u8, 8u8, 8u8, 9u8, 10u8, 11u8, 0u8, 1u8, 2u8, 3u8, 4u8, 5u8, 6u8, 7u8, 8u8, 9u8, 10u8, 11u8, 0u8, 1u8, 2u8, 3u8, 4u8, 5u8, 6u8, 7u8, 8u8, 9u8, 10u8, 11u8, 0u8, 1u8, 2u8, 3u8, 4u8, 5u8, 6u8, 6u8, 7u8, 8u8]
}

spec fn moon_sectors_10() -> Seq<u8> {
    seq![9u8, 10u8, 11u8, 0u8, 1u8, 2u8, 3u8, 4u8, 5u8, 6u8, 7u8, 8u8, 9u8, 10u8, 11u8, 0u8, 1u8, 2u8, 3u8, 4u8, 5u8, 6u8, 7u8, 8u8, 9u8, 10u8, 11u8, 0u8, 1u8, 2u8, 3u8, 4u8, 5u8, 5u8, 6u8, 7u8, 8u8, 9u8, 10u8, 11u8, 0u8, 1u8, 2u8, 3u8, 4u8, 5u8, 6u8, 7u8, 8u8, 9u8, 10u8, 11u8, 0u8, 1u8, 2u8, 3u8, 4u8, 5u8, 6u8, 7u8, 8u8, 9u8, 10u8, 10u8, 11u8, 0u8, 1u8, 2u8, 3u8, 4u8, 5u8, 6u8, 7u8, 8u8, 9u8, 10u8, 11u8, 0u8, 1u8, 2u8, 3u8, 4u8, 5u8, 6u8, 7u8, 8u8, 9u8, 10u8, 11u8, 0u8, 1u8, 2u8, 3u8, 4u8, 5u8, 6u8, 7u8, 7u8, 8u8, 9u8]
}

spec fn moon_sectors_11() -> Seq<u8> {
    seq![10u8, 11u8, 0u8, 1u8, 2u8, 3u8, 4u8, 5u8, 6u8, 7u8, 8u8, 9u8, 10u8, 11u8, 0u8, 1u8, 2u8, 3u8, 4u8, 5u8, 6u8, 7u8, 8u8, 9u8, 10u8, 11u8, 0u8, 1u8, 2u8, 3u8, 4u8, 5u8, 5u8, 6u8, 7u8, 8u8, 9u8, 10u8, 11u8, 0u8, 1u8, 2u8, 3u8, 4u8, 5u8, 6u8, 7u8, 8u8, 9u8, 10u8, 11u8, 0u8, 1u8, 2u8, 3u8, 4u8, 5u8, 6u8, 7u8, 8u8, 9u8, 10u8, 11u8, 0u8, 1u8, 2u8, 3u8, 3u8, 4u8, 5u8, 6u8, 7u8, 8u8, 9u8, 10u8, 11u8, 0u8, 1u8, 2u8, 3u8, 4u8, 5u8, 6u8, 7u8, 8u8, 9u8, 10u8, 11u8, 0u8, 1u8, 2u8, 3u8, 4u8, 5u8, 6u8, 7u8, 7u8, 8u8, 9u8, 10u8]
}

spec fn moon_sectors_12() -> Seq<u8> {
    seq![11u8, 0u8, 1u8, 2u8, 3u8, 4u8, 5u8, 6u8, 7u8, 8u8, 9u8, 10u8, 11u8, 0u8, 1u8, 2u8, 3u8, 4u8, 5u8, 6u8, 7u8, 8u8, 9u8, 10u8, 11u8, 0u8, 1u8, 2u8, 3u8, 4u8, 5u8, 6u8, 6u8, 7u8, 8u8, 9u8, 10u8, 11u8, 0u8, 1u8, 2u8, 3u8, 4u8, 5u8, 6u8, 7u8, 8u8, 9u8, 10u8, 11u8, 0u8, 1u8, 2u8, 3u8, 4u8, 5u8, 6u8, 7u8, 8u8, 9u8, 10u8, 11u8, 0u8, 1u8, 2u8, 3u8, 4u8, 4u8, 5u8, 6u8, 7u8, 8u8, 9u8, 10u8, 11u8, 0u8, 1u8, 2u8, 3u8, 4u8, 5u8, 6u8, 7u8, 8u8, 9u8, 10u8, 11u8, 0u8, 1u8, 2u8, 3u8, 4u8, 5u8, 6u8, 7u8, 8u8, 8u8, 9u8, 10u8, 0u8]
}

spec fn moon_sectors_13() -> Seq<u8> {
    seq![0u8, 2u8, 2u8, 3u8, 4u8, 5u8, 6u8, 7u8, 8u8, 9u8, 10u8, 11u8, 0u8, 1u8, 2u8, 3u8, 4u8, 5u8, 6u8, 7u8, 8u8, 9u8, 10u8, 11u8, 0u8, 1u8, 2u8, 3u8, 4u8, 5u8, 6u8, 7u8, 7u8, 8u8, 9u8, 10u8, 11u8, 0u8, 1u8, 2u8, 3u8, 4u8, 5u8, 6u8, 7u8, 8u8, 9u8, 10u8, 11u8, 0u8, 1u8, 2u8, 3u8, 4u8, 5u8, 6u8, 7u8, 8u8, 9u8, 10u8, 11u8, 0u8, 1u8, 2u8, 3u8, 4u8, 5u8, 6u8, 6u8, 7u8, 8u8, 9u8, 10u8, 11u8, 0u8, 1u8, 2u8, 3u8, 4u8, 5u8, 6u8, 7u8, 8u8, 9u8, 10u8, 11u8, 0u8, 1u8, 2u8, 3u8, 4u8, 5u8, 6u8, 7u8, 8u8, 9u8, 10u8, 11u8, 0u8, 1u8]
}

spec fn moon_sectors_14() -> Seq<u8> {
    seq![2u8, 3u8, 3u8, 4u8, 5u8, 6u8, 7u8, 8u8, 9u8, 10u8, 11u8, 0u8, 1u8, 2u8, 3u8, 4u8, 5u8, 6u8, 7u8, 8u8, 9u8, 10u8, 11u8, 0u8, 1u8, 2u8, 3u8, 4u8, 5u8, 6u8, 7u8, 8u8, 8u8, 9u8, 10u8, 11u8, 0u8, 1u8, 2u8, 3u8, 4u8, 5u8, 6u8, 7u8, 8u8, 9u8, 10u8, 11u8, 0u8, 1u8, 2u8, 3u8, 4u8, 5u8, 6u8, 7u8, 8u8, 9u8, 10u8, 11u8, 0u8, 1u8, 2u8, 3u8, 4u8, 5u8, 6u8, 6u8, 7u8, 8u8, 9u8, 10u8, 11u8, 0u8, 1u8, 2u8, 3u8, 4u8, 5u8, 6u8, 7u8, 8u8, 9u8, 10u8, 11u8, 0u8, 1u8, 2u8, 3u8, 4u8, 5u8, 6u8, 7u8, 8u8, 9u8, 10u8, 11u8, 0u8, 1u8, 2u8]
}

spec fn moon_sectors_15() -> Seq<u8> {
    seq![3u8, 4u8, 4u8, 5u8, 6u8, 7u8, 8u8, 9u8, 10u8, 11u8, 0u8, 1u8, 2u8, 3u8, 4u8, 5u8, 6u8, 7u8, 8u8, 9u8, 10u8, 11u8, 0u8, 1u8, 2u8, 3u8, 4u8, 5u8, 6u8, 7u8, 8u8, 9u8, 9u8, 10u8, 11u8, 1u8, 2u8, 2u8, 3u8, 4u8, 5u8, 6u8, 7u8, 8u8, 9u8, 10u8, 11u8, 0u8, 1u8, 2u8, 3u8, 4u8, 5u8, 6u8, 7u8, 8u8, 9u8, 10u8, 11u8, 0u8, 1u8, 2u8, 3u8, 4u8, 5u8, 6u8, 7u8, 7u8, 8u8, 9u8, 10u8, 11u8, 0u8, 1u8, 2u8, 3u8, 4u8, 5u8, 6u8, 7u8, 8u8, 9u8, 10u8, 11u8, 0u8, 1u8, 2u8, 3u8, 4u8, 5u8, 6u8, 7u8, 8u8, 9u8, 10u8, 11u8, 0u8, 1u8, 2u8, 3u8]
}

spec fn moon_sectors_16() -> Seq<u8> {
    seq![4u8, 5u8, 5u8, 6u8, 7u8, 8u8, 9u8, 10u8, 11u8, 0u8, 1u8, 2u8, 3u8, 4u8, 5u8, 6u8, 7u8, 8u8, 9u8, 10u8, 11u8, 0u8, 1u8, 2u8, 3u8, 4u8, 5u8, 6u8, 7u8, 8u8, 9u8, 10u8, 11u8, 0u8, 1u8, 2u8, 3u8, 4u8, 4u8, 5u8, 6u8, 7u8, 8u8, 9u8, 10u8, 11u8, 0u8, 1u8, 2u8, 3u8, 4u8, 5u8, 6u8, 7u8, 8u8, 9u8, 10u8, 11u8, 0u8, 1u8, 2u8, 3u8, 4u8, 5u8, 6u8, 7u8, 8u8, 8u8, 9u8, 10u8, 11u8, 0u8, 1u8, 2u8, 3u8, 4u8, 5u8, 6u8, 7u8, 8u8, 9u8, 10u8, 11u8, 0u8, 1u8, 2u8, 3u8, 4u8, 5u8, 6u8, 7u8, 8u8, 9u8, 10u8, 11u8, 0u8, 1u8, 2u8, 3u8, 4u8]
}

spec fn moon_sectors_17() -> Seq<u8> {
    seq![5u8, 6u8, 6u8, 7u8, 8u8, 9u8, 10u8, 11u8, 0u8, 1u8, 2u8, 3u8, 4u8, 5u8, 6u8, 7u8, 8u8, 9u8, 10u8, 11u8, 0u8, 1u8, 2u8, 3u8, 4u8, 5u8, 6u8, 7u8, 8u8, 9u8, 10u8, 11u8, 0u8, 1u8, 2u8, 3u8, 4u8, 5u8, 5u8, 6u8, 7u8, 8u8, 9u8, 10u8, 11u8, 0u8, 1u8, 2u8, 3u8, 4u8, 5u8, 6u8, 7u8, 8u8, 9u8, 10u8, 11u8, 0u8, 1u8, 2u8, 3u8, 4u8, 5u8, 6u8, 7u8, 8u8, 9u8, 9u8, 10u8, 11u8, 0u8, 1u8, 2u8, 3u8, 4u8, 5u8, 6u8, 7u8, 8u8, 9u8, 10u8, 11u8, 0u8, 1u8, 2u8, 3u8, 4u8, 5u8, 6u8, 7u8, 8u8, 9u8, 10u8, 11u8, 0u8, 1u8, 2u8, 3u8, 4u8, 5u8]
}

spec fn moon_sectors_18() -> Seq<u8> {
    seq![6u8, 7u8, 7u8, 8u8, 9u8, 10u8, 11u8, 0u8, 1u8, 2u8, 3u8, 4u8, 5u8, 6u8, 7u8, 8u8, 9u8, 10u8, 11u8, 0u8, 1u8, 2u8, 3u8, 4u8, 5u8, 6u8, 7u8, 8u8, 9u8, 10u8, 11u8, 0u8, 1u8, 2u8, 3u8, 4u8, 5u8, 5u8, 6u8, 7u8, 8u8, 9u8, 10u8, 11u8, 0u8, 1u8, 2u8, 3u8, 4u8, 5u8, 6u8, 7u8, 8u8, 9u8, 10u8, 11u8, 0u8, 1u8, 2u8, 3u8, 4u8, 5u8, 6u8, 7u8, 8u8, 9u8, 10u8, 11u8, 0u8, 1u8, 2u8, 3u8, 4u8, 4u8, 5u8, 6u8, 7u8, 8u8, 9u8, 10u8, 11u8, 0u8, 1u8, 2u8, 3u8, 4u8, 5u8, 6u8, 7u8, 8u8, 9u8, 10u8, 11u8, 0u8, 1u8, 2u8, 3u8, 4u8, 5u8, 6u8]
}

spec fn moon_sectors_19() -> Seq<u8> {
    seq![7u8, 8u8, 8u8, 9u8, 10u8, 11u8, 0u8, 1u8, 2u8, 3u8, 4u8, 5u8, 6u8, 7u8, 8u8, 9u8, 10u8, 11u8, 0u8, 1u8, 2u8, 3u8, 4u8, 5u8, 6u8, 7u8, 8u8, 9u8, 10u8, 11u8, 0u8, 1u8, 2u8, 3u8, 4u8, 5u8, 6u8, 6u8, 7u8, 8u8, 9u8, 10u8, 11u8, 0u8, 1u8, 2u8, 3u8, 4u8, 5u8, 6u8, 7u8, 8u8, 9u8, 10u8, 11u8, 0u8, 1u8, 2u8, 3u8, 4u8, 5u8, 6u8, 7u8, 8u8, 9u8, 10u8, 11u8, 0u8, 1u8, 2u8, 3u8, 4u8, 5u8, 5u8, 6u8, 7u8, 8u8, 9u8, 10u8, 11u8, 0u8, 1u8, 2u8, 3u8, 4u8, 5u8, 6u8, 7u8, 8u8, 9u8, 10u8, 11u8, 0u8, 1u8, 2u8, 3u8, 4u8, 5u8, 6u8, 7u8]
}

spec fn moon_sectors_20() -> Seq<u8> {
    seq![8u8, 9u8, 9u8, 10u8, 11u8, 0u8, 1u8, 2u8, 3u8, 4u8, 5u8, 6u8, 7u8, 8u8, 9u8, 10u8, 11u8, 0u8, 1u8, 2u8, 3u8, 4u8, 5u8, 6u8, 7u8, 8u8, 9u8, 10u8, 11u8, 0u8, 1u8, 2u8, 3u8, 4u8, 5u8, 6u8, 7u8, 7u8, 8u8, 9u8, 10u8, 11u8, 0u8, 1u8, 2u8, 3u8, 4u8, 5u8, 6u8, 7u8, 8u8, 9u8, 10u8, 11u8, 0u8, 1u8, 2u8, 3u8, 4u8, 5u8, 6u8, 7u8, 8u8, 9u8, 10u8, 11u8, 0u8, 1u8, 2u8, 3u8, 4u8, 5u8, 5u8, 6u8, 7u8, 8u8, 9u8, 10u8, 11u8, 0u8, 1u8, 2u8, 3u8, 4u8, 5u8, 6u8, 7u8, 8u8, 9u8, 10u8, 11u8, 0u8, 1u8, 2u8, 3u8, 4u8, 5u8, 6u8, 7u8, 8u8]
}

spec fn moon_sectors_21() -> Seq<u8> {
    seq![9u8, 10u8, 11u8, 0u8, 1u8, 2u8, 3u8, 3u8, 4u8, 5u8, 6u8, 7u8, 8u8, 9u8, 10u8, 11u8, 0u8, 1u8, 2u8, 3u8, 4u8, 5u8, 6u8, 7u8, 8u8, 9u8, 10u8, 11u8, 0u8, 1u8, 2u8, 3u8, 4u8, 5u8, 6u8, 7u8, 8u8, 8u8, 9u8, 10u8, 11u8, 0u8]
}

/// The sector of the sun's longitude each new moon's day begins in.
pub closed spec fn moon_sectors() -> Seq<u8> {
    moon_sectors_0()
        + moon_sectors_1()
        + moon_sectors_2()
        + moon_sectors_3()
        + moon_sectors_4()
        + moon_sectors_5()
        + moon_sectors_6()
        + moon_sectors_7()
        + moon_sectors_8()
        + moon_sectors_9()
        + moon_sectors_10()
        + moon_sectors_11()
        + moon_sectors_12()
        + moon_sectors_13()
        + moon_sectors_14()
        + moon_sectors_15()
        + moon_sectors_16()
        + moon_sectors_17()
        + moon_sectors_18()
        + moon_sectors_19()
        + moon_sectors_20()
        + moon_sectors_21()
}

spec fn solstice_days_0() -> Seq<i64> {
    seq![-14985i64, -14620i64, -14255i64, -13889i64, -13524i64, -13159i64, -12794i64, -12428i64, -12063i64, -11698i64, -11333i64, -10967i64, -10602i64, -10237i64, -9872i64, -9506i64, -9141i64, -8776i64, -8411i64, -8045i64, -7680i64, -7315i64, -6950i64, -6585i64, -6219i64, -5854i64, -5489i64, -5124i64, -4758i64, -4393i64, -4028i64, -3663i64, -3297i64, -2932i64, -2567i64, -2202i64, -1836i64, -1471i64, -1106i64, -741i64, -375i64, -10i64, 355i64, 720i64, 1086i64, 1451i64, 1816i64, 2181i64, 2547i64, 2912i64, 3277i64, 3642i64, 4008i64, 4373i64, 4738i64, 5103i64, 5469i64, 5834i64, 6199i64, 6564i64, 6929i64, 7295i64, 7660i64, 8025i64, 8390i64, 8756i64, 9121i64, 9486i64, 9851i64, 10217i64, 10582i64, 10947i64, 11312i64, 11678i64, 12043i64, 12408i64, 12773i64, 13139i64, 13504i64, 13869i64, 14234i64, 14600i64, 14965i64, 15330i64, 15695i64, 16061i64, 16426i64, 16791i64, 17156i64, 17522i64, 17887i64, 18252i64, 18617i64, 18982i64, 19348i64, 19713i64, 20078i64, 20443i64, 20809i64, 21174i64]
}

spec fn solstice_days_1() -> Seq<i64> {
    seq![21539i64, 21904i64, 22270i64, 22635i64, 23000i64, 23365i64, 23731i64, 24096i64, 24461i64, 24826i64, 25192i64, 25557i64, 25922i64, 26287i64, 26653i64, 27018i64, 27383i64, 27748i64, 28114i64, 28479i64, 28844i64, 29209i64, 29575i64, 29940i64, 30305i64, 30670i64, 31036i64, 31401i64, 31766i64, 32131i64, 32496i64, 32862i64, 33227i64, 33592i64, 33957i64, 34323i64, 34688i64, 35053i64, 35418i64, 35784i64, 36149i64, 36514i64, 36879i64, 37245i64, 37610i64, 37975i64, 38340i64, 38706i64, 39071i64, 39436i64, 39801i64, 40167i64, 40532i64, 40897i64, 41262i64, 41628i64, 41993i64, 42358i64, 42723i64, 43089i64, 43454i64, 43819i64, 44184i64, 44549i64, 44915i64, 45280i64, 45645i64, 46010i64, 46376i64, 46741i64, 47106i64, 47471i64, 47837i64, 48202i64]
}

/// The civil day of the December solstice of each tabulated year.
pub closed spec fn solstice_days() -> Seq<i64> {
    solstice_days_0()
        + solstice_days_1()
}

pub fn moon_day_table() -> (table: Vec<i64>)
    ensures
        table@ == moon_days(),
{
    let mut table: Vec<i64> = Vec::new();
    let mut part: Vec<i64> = vec![-14995i64, -14965i64, -14935i64, -14906i64, -14876i64, -14847i64, -14818i64, -14788i64, -14759i64, -14730i64, -14700i64, -14671i64, -14641i64, -14611i64, -14581i64, -14552i64, -14522i64, -14492i64, -14463i64, -14434i64, -14404i64, -14375i64, -14346i64, -14316i64, -14287i64, -14257i64, -14227i64, -14198i64, -14168i64, -14138i64, -14109i64, -14079i64, -14050i64, -14020i64, -13991i64, -13962i64, -13932i64, -13903i64, -13873i64, -13844i64, -13814i64, -13784i64, -13754i64, -13725i64, -13695i64, -13666i64, -13636i64, -13607i64, -13578i64, -13548i64, -13519i64, -13489i64, -13460i64, -13430i64, -13400i64, -13371i64, -13341i64, -13311i64, -13282i64, -13252i64, -13223i64, -13193i64, -13164i64, -13135i64, -13105i64, -13076i64, -13046i64, -13017i64, -12987i64, -12957i64, -12928i64, -12898i64, -12869i64, -12839i64, -12809i64, -12780i64, -12750i64, -12721i64, -12692i64, -12662i64, -12633i64, -12603i64, -12574i64, -12544i64, -12514i64, -12485i64, -12455i64, -12425i64, -12396i64, -12366i64, -12337i64, -12308i64, -12278i64, -12249i64, -12220i64, -12190i64, -12160i64, -12131i64, -12101i64, -12071i64];
    table.append(&mut part);
    let mut part: Vec<i64> = vec![-12041i64, -12012i64, -11982i64, -11953i64, -11924i64, -11894i64, -11865i64, -11836i64, -11806i64, -11777i64, -11747i64, -11717i64, -11687i64, -11658i64, -11628i64, -11598i64, -11569i64, -11540i64, -11510i64, -11481i64, -11452i64, -11422i64, -11393i64, -11363i64, -11333i64, -11304i64, -11274i64, -11244i64, -11214i64, -11185i64, -11156i64, -11126i64, -11097i64, -11068i64, -11038i64, -11009i64, -10979i64, -10950i64, -10920i64, -10890i64, -10860i64, -10831i64, -10801i64, -10772i64, -10742i64, -10713i64, -10684i64, -10654i64, -10625i64, -10595i64, -10566i64, -10536i64, -10506i64, -10477i64, -10447i64, -10417i64, -10388i64, -10358i64, -10329i64, -10300i64, -10270i64, -10241i64, -10211i64, -10182i64, -10152i64, -10123i64, -10093i64, -10063i64, -10034i64, -10004i64, -9975i64, -9945i64, -9916i64, -9886i64, -9857i64, -9827i64, -9798i64, -9768i64, -9739i64, -9709i64, -9680i64, -9650i64, -9620i64, -9591i64, -9561i64, -9532i64, -9502i64, -9473i64, -9443i64, -9414i64, -9384i64, -9355i64, -9325i64, -9296i64, -9266i64, -9237i64, -9207i64, -9177i64, -9148i64, -9118i64];
    table.append(&mut part);
    let mut part: Vec<i64> = vec![-9088i64, -9059i64, -9030i64, -9000i64, -8971i64, -8942i64, -8912i64, -8883i64, -8853i64, -8823i64, -8793i64, -8764i64, -8734i64, -8704i64, -8675i64, -8646i64, -8616i64, -8587i64, -8558i64, -8528i64, -8499i64, -8469i64, -8439i64, -8410i64, -8380i64, -8350i64, -8320i64, -8291i64, -8262i64, -8232i64, -8203i64, -8174i64, -8144i64, -8115i64, -8085i64, -8056i64, -8026i64, -7996i64, -7966i64, -7937i64, -7907i64, -7878i64, -7848i64, -7819i64, -7790i64, -7760i64, -7731i64, -7701i64, -7672i64, -7642i64, -7612i64, -7583i64, -7553i64, -7523i64, -7494i64, -7464i64, -7435i64, -7406i64, -7376i64, -7347i64, -7317i64, -7288i64, -7258i64, -7229i64, -7199i64, -7169i64, -7140i64, -7110i64, -7080i64, -7051i64, -7022i64, -6992i64, -6963i64, -6933i64, -6904i64, -6874i64, -6845i64, -6815i64, -6785i64, -6756i64, -6726i64, -6697i64, -6667i64, -6638i64, -6608i64, -6579i64, -6549i64, -6520i64, -6490i64, -6461i64, -6431i64, -6402i64, -6372i64, -6343i64, -6313i64, -6283i64, -6254i64, -6224i64, -6195i64, -6165i64];
    table.append(&mut part);
    let mut part: Vec<i64> = vec![-6136i64, -6106i64, -6077i64, -6048i64, -6018i64, -5988i64, -5959i64, -5929i64, -5899i64, -5870i64, -5840i64, -5811i64, -5781i64, -5752i64, -5722i64, -5693i64, -5664i64, -5634i64, -5605i64, -5575i64, -5545i64, -5516i64, -5486i64, -5456i64, -5427i64, -5397i64, -5368i64, -5338i64, -5309i64, -5280i64, -5250i64, -5221i64, -5191i64, -5162i64, -5132i64, -5102i64, -5072i64, -5043i64, -5013i64, -4984i64, -4954i64, -4925i64, -4896i64, -4866i64, -4837i64, -4807i64, -4778i64, -4748i64, -4718i64, -4688i64, -4659i64, -4629i64, -4600i64, -4570i64, -4541i64, -4512i64, -4482i64, -4453i64, -4423i64, -4394i64, -4364i64, -4335i64, -4305i64, -4275i64, -4245i64, -4216i64, -4186i64, -4157i64, -4128i64, -4098i64, -4069i64, -4039i64, -4010i64, -3980i64, -3951i64, -3921i64, -3891i64, -3862i64, -3832i64, -3803i64, -3773i64, -3744i64, -3714i64, -3685i64, -3655i64, -3626i64, -3596i64, -3567i64, -3537i64, -3508i64, -3478i64, -3448i64, -3419i64, -3389i64, -3360i64, -3330i64, -3301i64, -3271i64, -3242i64, -3212i64];
    table.append(&mut part);
    let mut part: Vec<i64> = vec![-3183i64, -3153i64, -3124i64, -3094i64, -3065i64, -3035i64, -3005i64, -2976i64, -2946i64, -2917i64, -2887i64, -2858i64, -2828i64, -2799i64, -2770i64, -2740i64, -2711i64, -2681i64, -2651i64, -2622i64, -2592i64, -2562i64, -2533i64, -2503i64, -2474i64, -2444i64, -2415i64, -2386i64, -2356i64, -2327i64, -2297i64, -2268i64, -2238i64, -2208i64, -2178i64, -2149i64, -2119i64, -2090i64, -2060i64, -2031i64, -2002i64, -1972i64, -1943i64, -1913i64, -1884i64, -1854i64, -1824i64, -1794i64, -1765i64, -1735i64, -1706i64, -1676i64, -1647i64, -1618i64, -1588i64, -1559i64, -1530i64, -1500i64, -1470i64, -1441i64, -1411i64, -1381i64, -1351i64, -1322i64, -1292i64, -1263i64, -1234i64, -1204i64, -1175i64, -1146i64, -1116i64, -1086i64, -1057i64, -1027i64, -997i64, -968i64, -938i64, -908i64, -879i64, -850i64, -820i64, -791i64, -761i64, -732i64, -702i64, -673i64, -643i64, -614i64, -584i64, -554i64, -525i64, -495i64, -466i64, -436i64, -407i64, -377i64, -348i64, -318i64, -289i64, -259i64];
    table.append(&mut part);
    let mut part: Vec<i64> = vec![-230i64, -200i64, -171i64, -141i64, -111i64, -82i64, -52i64, -23i64, 7i64, 36i64, 66i64, 95i64, 124i64, 154i64, 183i64, 213i64, 243i64, 272i64, 302i64, 332i64, 361i64, 391i64, 420i64, 450i64, 479i64, 508i64, 538i64, 567i64, 597i64, 626i64, 656i64, 686i64, 716i64, 745i64, 775i64, 804i64, 834i64, 863i64, 892i64, 922i64, 951i64, 981i64, 1010i64, 1040i64, 1070i64, 1099i64, 1129i64, 1159i64, 1188i64, 1218i64, 1247i64, 1276i64, 1306i64, 1335i64, 1364i64, 1394i64, 1424i64, 1453i64, 1483i64, 1513i64, 1543i64, 1572i64, 1602i64, 1631i64, 1660i64, 1690i64, 1719i64, 1748i64, 1778i64, 1808i64, 1837i64, 1867i64, 1897i64, 1927i64, 1956i64, 1986i64, 2015i64, 2044i64, 2074i64, 2103i64, 2132i64, 2162i64, 2191i64, 2221i64, 2251i64, 2281i64, 2310i64, 2340i64, 2369i64, 2399i64, 2428i64, 2458i64, 2487i64, 2516i64, 2546i64, 2575i64, 2605i64, 2635i64, 2664i64, 2694i64];
    table.append(&mut part);
    let mut part: Vec<i64> = vec![2724i64, 2753i64, 2783i64, 2812i64, 2842i64, 2871i64, 2901i64, 2930i64, 2959i64, 2989i64, 3018i64, 3048i64, 3078i64, 3107i64, 3137i64, 3167i64, 3196i64, 3226i64, 3255i64, 3285i64, 3314i64, 3344i64, 3373i64, 3402i64, 3432i64, 3461i64, 3491i64, 3521i64, 3550i64, 3580i64, 3610i64, 3639i64, 3669i64, 3698i64, 3728i64, 3757i64, 3786i64, 3816i64, 3845i64, 3875i64, 3904i64, 3934i64, 3964i64, 3993i64, 4023i64, 4053i64, 4082i64, 4112i64, 4141i64, 4170i64, 4200i64, 4229i64, 4258i64, 4288i64, 4318i64, 4347i64, 4377i64, 4407i64, 4437i64, 4466i64, 4496i64, 4525i64, 4554i64, 4584i64, 4613i64, 4642i64, 4672i64, 4701i64, 4731i64, 4761i64, 4791i64, 4821i64, 4850i64, 4880i64, 4909i64, 4938i64, 4968i64, 4997i64, 5026i64, 5056i64, 5085i64, 5115i64, 5145i64, 5175i64, 5204i64, 5234i64, 5264i64, 5293i64, 5322i64, 5352i64, 5381i64, 5410i64, 5440i64, 5469i64, 5499i64, 5529i64, 5558i64, 5588i64, 5618i64, 5647i64];
    table.append(&mut part);
    let mut part: Vec<i64> = vec![5677i64, 5706i64, 5736i64, 5765i64, 5794i64, 5824i64, 5853i64, 5883i64, 5912i64, 5942i64, 5972i64, 6001i64, 6031i64, 6061i64, 6090i64, 6120i64, 6149i64, 6179i64, 6208i64, 6237i64, 6267i64, 6296i64, 6326i64, 6355i64, 6385i64, 6415i64, 6444i64, 6474i64, 6504i64, 6533i64, 6563i64, 6592i64, 6621i64, 6651i64, 6680i64, 6710i64, 6739i64, 6769i64, 6798i64, 6828i64, 6858i64, 6887i64, 6917i64, 6947i64, 6976i64, 7006i64, 7035i64, 7064i64, 7094i64, 7123i64, 7153i64, 7182i64, 7212i64, 7241i64, 7271i64, 7301i64, 7331i64, 7360i64, 7390i64, 7419i64, 7448i64, 7478i64, 7507i64, 7536i64, 7566i64, 7595i64, 7625i64, 7655i64, 7685i64, 7715i64, 7744i64, 7774i64, 7803i64, 7832i64, 7862i64, 7891i64, 7920i64, 7950i64, 7979i64, 8009i64, 8039i64, 8069i64, 8098i64, 8128i64, 8158i64, 8187i64, 8216i64, 8246i64, 8275i64, 8304i64, 8334i64, 8363i64, 8393i64, 8423i64, 8452i64, 8482i64, 8512i64, 8541i64, 8571i64, 8600i64];
    table.append(&mut part);
    let mut part: Vec<i64> = vec![8630i64, 8659i64, 8688i64, 8718i64, 8747i64, 8777i64, 8806i64, 8836i64, 8866i64, 8896i64, 8925i64, 8955i64, 8984i64, 9014i64, 9043i64, 9072i64, 9102i64, 9131i64, 9161i64, 9190i64, 9220i64, 9250i64, 9279i64, 9309i64, 9338i64, 9368i64, 9398i64, 9427i64, 9456i64, 9486i64, 9515i64, 9545i64, 9574i64, 9604i64, 9633i64, 9663i64, 9693i64, 9722i64, 9752i64, 9781i64, 9811i64, 9841i64, 9870i64, 9899i64, 9929i64, 9958i64, 9988i64, 10017i64, 10047i64, 10076i64, 10106i64, 10136i64, 10165i64, 10195i64, 10225i64, 10254i64, 10284i64, 10313i64, 10342i64, 10372i64, 10401i64, 10430i64, 10460i64, 10490i64, 10519i64, 10549i64, 10579i64, 10608i64, 10638i64, 10668i64, 10697i64, 10726i64, 10756i64, 10785i64, 10814i64, 10844i64, 10873i64, 10903i64, 10933i64, 10963i64, 10992i64, 11022i64, 11052i64, 11081i64, 11110i64, 11140i64, 11169i64, 11198i64, 11228i64, 11257i64, 11287i64, 11317i64, 11346i64, 11376i64, 11406i64, 11435i64, 11465i64, 11494i64, 11524i64, 11553i64];
    table.append(&mut part);
    let mut part: Vec<i64> = vec![11582i64, 11612i64, 11641i64, 11671i64, 11700i64, 11730i64, 11760i64, 11790i64, 11819i64, 11849i64, 11878i64, 11908i64, 11937i64, 11966i64, 11996i64, 12025i64, 12055i64, 12084i64, 12114i64, 12144i64, 12173i64, 12203i64, 12233i64, 12262i64, 12292i64, 12321i64, 12350i64, 12380i64, 12409i64, 12439i64, 12468i64, 12498i64, 12527i64, 12557i64, 12587i64, 12616i64, 12646i64, 12675i64, 12705i64, 12734i64, 12764i64, 12793i64, 12823i64, 12852i64, 12882i64, 12911i64, 12941i64, 12970i64, 13000i64, 13030i64, 13059i64, 13089i64, 13118i64, 13148i64, 13177i64, 13207i64, 13236i64, 13266i64, 13295i64, 13325i64, 13354i64, 13384i64, 13413i64, 13443i64, 13473i64, 13502i64, 13532i64, 13562i64, 13591i64, 13620i64, 13650i64, 13679i64, 13708i64, 13738i64, 13767i64, 13797i64, 13827i64, 13857i64, 13886i64, 13916i64, 13946i64, 13975i64, 14004i64, 14034i64, 14063i64, 14092i64, 14122i64, 14151i64, 14181i64, 14211i64, 14240i64, 14270i64, 14300i64, 14330i64, 14359i64, 14388i64, 14418i64, 14447i64, 14476i64, 14506i64];
    table.append(&mut part);
    let mut part: Vec<i64> = vec![14535i64, 14565i64, 14594i64, 14624i64, 14654i64, 14684i64, 14713i64, 14743i64, 14772i64, 14802i64, 14831i64, 14860i64, 14890i64, 14919i64, 14949i64, 14978i64, 15008i64, 15038i64, 15067i64, 15097i64, 15127i64, 15156i64, 15186i64, 15215i64, 15244i64, 15274i64, 15303i64, 15333i64, 15362i64, 15392i64, 15421i64, 15451i64, 15481i64, 15510i64, 15540i64, 15569i64, 15599i64, 15628i64, 15658i64, 15687i64, 15717i64, 15746i64, 15776i64, 15805i64, 15835i64, 15864i64, 15894i64, 15924i64, 15953i64, 15983i64, 16012i64, 16042i64, 16071i64, 16101i64, 16130i64, 16160i64, 16189i64, 16219i64, 16248i64, 16278i64, 16307i64, 16337i64, 16367i64, 16396i64, 16426i64, 16455i64, 16485i64, 16514i64, 16544i64, 16573i64, 16602i64, 16632i64, 16661i64, 16691i64, 16721i64, 16751i64, 16780i64, 16810i64, 16839i64, 16869i64, 16898i64, 16928i64, 16957i64, 16986i64, 17016i64, 17045i64, 17075i64, 17105i64, 17134i64, 17164i64, 17194i64, 17223i64, 17253i64, 17282i64, 17312i64, 17341i64, 17370i64, 17400i64, 17429i64, 17459i64];
    table.append(&mut part);
    let mut part: Vec<i64> = vec![17488i64, 17518i64, 17548i64, 17578i64, 17607i64, 17637i64, 17666i64, 17696i64, 17725i64, 17754i64, 17784i64, 17813i64, 17843i64, 17872i64, 17902i64, 17932i64, 17962i64, 17991i64, 18021i64, 18050i64, 18080i64, 18109i64, 18138i64, 18168i64, 18197i64, 18226i64, 18256i64, 18286i64, 18315i64, 18345i64, 18375i64, 18405i64, 18434i64, 18464i64, 18493i64, 18522i64, 18552i64, 18581i64, 18611i64, 18640i64, 18670i64, 18699i64, 18729i64, 18759i64, 18788i64, 18818i64, 18847i64, 18877i64, 18906i64, 18936i64, 18965i64, 18995i64, 19024i64, 19054i64, 19083i64, 19113i64, 19142i64, 19172i64, 19202i64, 19231i64, 19261i64, 19290i64, 19320i64, 19349i64, 19379i64, 19408i64, 19438i64, 19467i64, 19496i64, 19526i64, 19556i64, 19585i64, 19615i64, 19645i64, 19674i64, 19704i64, 19733i64, 19763i64, 19792i64, 19822i64, 19851i64, 19880i64, 19910i64, 19939i64, 19969i64, 19999i64, 20028i64, 20058i64, 20088i64, 20117i64, 20147i64, 20176i64, 20206i64, 20235i64, 20264i64, 20294i64, 20323i64, 20353i64, 20382i64, 20412i64];
    table.append(&mut part);
    let mut part: Vec<i64> = vec![20442i64, 20472i64, 20501i64, 20531i64, 20560i64, 20590i64, 20619i64, 20648i64, 20678i64, 20707i64, 20736i64, 20766i64, 20796i64, 20826i64, 20855i64, 20885i64, 20915i64, 20944i64, 20974i64, 21003i64, 21032i64, 21062i64, 21091i64, 21120i64, 21150i64, 21180i64, 21209i64, 21239i64, 21269i64, 21299i64, 21328i64, 21358i64, 21387i64, 21416i64, 21446i64, 21475i64, 21504i64, 21534i64, 21564i64, 21593i64, 21623i64, 21653i64, 21682i64, 21712i64, 21741i64, 21771i64, 21800i64, 21830i64, 21859i64, 21888i64, 21918i64, 21948i64, 21977i64, 22007i64, 22036i64, 22066i64, 22096i64, 22125i64, 22155i64, 22184i64, 22214i64, 22243i64, 22273i64, 22302i64, 22331i64, 22361i64, 22391i64, 22420i64, 22450i64, 22479i64, 22509i64, 22539i64, 22568i64, 22598i64, 22627i64, 22657i64, 22686i64, 22716i64, 22745i64, 22774i64, 22804i64, 22833i64, 22863i64, 22893i64, 22922i64, 22952i64, 22982i64, 23011i64, 23041i64, 23070i64, 23100i64, 23129i64, 23158i64, 23188i64, 23217i64, 23247i64, 23276i64, 23306i64, 23336i64, 23366i64];
    table.append(&mut part);
    let mut part: Vec<i64> = vec![23395i64, 23425i64, 23454i64, 23484i64, 23513i64, 23542i64, 23572i64, 23601i64, 23631i64, 23660i64, 23690i64, 23720i64, 23749i64, 23779i64, 23809i64, 23838i64, 23868i64, 23897i64, 23926i64, 23956i64, 23985i64, 24014i64, 24044i64, 24074i64, 24103i64, 24133i64, 24163i64, 24193i64, 24222i64, 24252i64, 24281i64, 24310i64, 24340i64, 24369i64, 24398i64, 24428i64, 24457i64, 24487i64, 24517i64, 24547i64, 24577i64, 24606i64, 24636i64, 24665i64, 24694i64, 24724i64, 24753i64, 24782i64, 24812i64, 24841i64, 24871i64, 24901i64, 24931i64, 24960i64, 24990i64, 25019i64, 25049i64, 25078i64, 25108i64, 25137i64, 25166i64, 25196i64, 25225i64, 25255i64, 25285i64, 25314i64, 25344i64, 25374i64, 25403i64, 25433i64, 25462i64, 25492i64, 25521i64, 25551i64, 25580i64, 25609i64, 25639i64, 25668i64, 25698i64, 25728i64, 25757i64, 25787i64, 25816i64, 25846i64, 25876i64, 25905i64, 25935i64, 25964i64, 25993i64, 26023i64, 26052i64, 26082i64, 26111i64, 26141i64, 26171i64, 26200i64, 26230i64, 26260i64, 26289i64, 26319i64];
    table.append(&mut part);
    let mut part: Vec<i64> = vec![26348i64, 26378i64, 26407i64, 26436i64, 26466i64, 26495i64, 26525i64, 26554i64, 26584i64, 26614i64, 26643i64, 26673i64, 26703i64, 26732i64, 26762i64, 26791i64, 26820i64, 26850i64, 26879i64, 26908i64, 26938i64, 26968i64, 26997i64, 27027i64, 27057i64, 27087i64, 27116i64, 27146i64, 27175i64, 27204i64, 27234i64, 27263i64, 27292i64, 27322i64, 27351i64, 27381i64, 27411i64, 27441i64, 27471i64, 27500i64, 27530i64, 27559i64, 27588i64, 27618i64, 27647i64, 27676i64, 27706i64, 27735i64, 27765i64, 27795i64, 27825i64, 27854i64, 27884i64, 27913i64, 27943i64, 27972i64, 28002i64, 28031i64, 28060i64, 28090i64, 28119i64, 28149i64, 28179i64, 28208i64, 28238i64, 28268i64, 28297i64, 28327i64, 28356i64, 28386i64, 28415i64, 28444i64, 28474i64, 28503i64, 28533i64, 28562i64, 28592i64, 28622i64, 28651i64, 28681i64, 28711i64, 28740i64, 28770i64, 28799i64, 28828i64, 28858i64, 28887i64, 28917i64, 28946i64, 28976i64, 29005i64, 29035i64, 29065i64, 29094i64, 29124i64, 29154i64, 29183i64, 29213i64, 29242i64, 29271i64];
    table.append(&mut part);
    let mut part: Vec<i64> = vec![29301i64, 29330i64, 29360i64, 29389i64, 29419i64, 29448i64, 29478i64, 29508i64, 29537i64, 29567i64, 29597i64, 29626i64, 29656i64, 29685i64, 29714i64, 29744i64, 29773i64, 29802i64, 29832i64, 29862i64, 29891i64, 29921i64, 29951i64, 29981i64, 30010i64, 30040i64, 30069i64, 30098i64, 30128i64, 30157i64, 30186i64, 30216i64, 30245i64, 30275i64, 30305i64, 30335i64, 30365i64, 30394i64, 30424i64, 30453i64, 30482i64, 30512i64, 30541i64, 30570i64, 30600i64, 30629i64, 30659i64, 30689i64, 30719i64, 30748i64, 30778i64, 30808i64, 30837i64, 30866i64, 30896i64, 30925i64, 30954i64, 30984i64, 31013i64, 31043i64, 31073i64, 31102i64, 31132i64, 31162i64, 31191i64, 31221i64, 31250i64, 31280i64, 31309i64, 31338i64, 31368i64, 31397i64, 31427i64, 31456i64, 31486i64, 31516i64, 31546i64, 31575i64, 31605i64, 31634i64, 31664i64, 31693i64, 31722i64, 31752i64, 31781i64, 31811i64, 31840i64, 31870i64, 31900i64, 31929i64, 31959i64, 31988i64, 32018i64, 32047i64, 32077i64, 32106i64, 32136i64, 32165i64, 32195i64, 32224i64];
    table.append(&mut part);
    let mut part: Vec<i64> = vec![32254i64, 32283i64, 32313i64, 32342i64, 32372i64, 32402i64, 32431i64, 32461i64, 32491i64, 32520i64, 32549i64, 32579i64, 32608i64, 32638i64, 32667i64, 32697i64, 32726i64, 32756i64, 32785i64, 32815i64, 32845i64, 32875i64, 32904i64, 32934i64, 32963i64, 32992i64, 33022i64, 33051i64, 33080i64, 33110i64, 33139i64, 33169i64, 33199i64, 33229i64, 33258i64, 33288i64, 33318i64, 33347i64, 33376i64, 33406i64, 33435i64, 33464i64, 33494i64, 33523i64, 33553i64, 33583i64, 33613i64, 33642i64, 33672i64, 33702i64, 33731i64, 33760i64, 33790i64, 33819i64, 33848i64, 33878i64, 33907i64, 33937i64, 33967i64, 33996i64, 34026i64, 34056i64, 34085i64, 34115i64, 34144i64, 34174i64, 34203i64, 34232i64, 34262i64, 34291i64, 34321i64, 34350i64, 34380i64, 34410i64, 34440i64, 34469i64, 34499i64, 34528i64, 34558i64, 34587i64, 34616i64, 34646i64, 34675i64, 34705i64, 34734i64, 34764i64, 34794i64, 34823i64, 34853i64, 34883i64, 34912i64, 34942i64, 34971i64, 35000i64, 35030i64, 35059i64, 35089i64, 35118i64, 35148i64, 35177i64];
    table.append(&mut part);
    let mut part: Vec<i64> = vec![35207i64, 35237i64, 35266i64, 35296i64, 35325i64, 35355i64, 35384i64, 35414i64, 35443i64, 35473i64, 35502i64, 35532i64, 35561i64, 35591i64, 35620i64, 35650i64, 35680i64, 35709i64, 35739i64, 35768i64, 35798i64, 35827i64, 35857i64, 35886i64, 35916i64, 35945i64, 35974i64, 36004i64, 36034i64, 36063i64, 36093i64, 36123i64, 36152i64, 36182i64, 36211i64, 36241i64, 36270i64, 36300i64, 36329i64, 36358i64, 36388i64, 36417i64, 36447i64, 36477i64, 36507i64, 36536i64, 36566i64, 36595i64, 36625i64, 36654i64, 36684i64, 36713i64, 36742i64, 36772i64, 36801i64, 36831i64, 36861i64, 36890i64, 36920i64, 36950i64, 36979i64, 37009i64, 37038i64, 37068i64, 37097i64, 37126i64, 37156i64, 37185i64, 37215i64, 37244i64, 37274i64, 37304i64, 37334i64, 37363i64, 37393i64, 37422i64, 37452i64, 37481i64, 37510i64, 37540i64, 37569i64, 37599i64, 37628i64, 37658i64, 37688i64, 37717i64, 37747i64, 37777i64, 37806i64, 37836i64, 37865i64, 37894i64, 37924i64, 37953i64, 37983i64, 38012i64, 38042i64, 38071i64, 38101i64, 38131i64];
    table.append(&mut part);
    let mut part: Vec<i64> = vec![38160i64, 38190i64, 38219i64, 38249i64, 38278i64, 38308i64, 38337i64, 38367i64, 38396i64, 38426i64, 38455i64, 38485i64, 38514i64, 38544i64, 38574i64, 38603i64, 38633i64, 38662i64, 38692i64, 38721i64, 38751i64, 38780i64, 38810i64, 38839i64, 38869i64, 38898i64, 38928i64, 38957i64, 38987i64, 39017i64, 39046i64, 39076i64, 39105i64, 39135i64, 39164i64, 39194i64, 39223i64, 39252i64, 39282i64, 39311i64, 39341i64, 39371i64, 39401i64, 39430i64, 39460i64, 39489i64, 39519i64, 39548i64, 39578i64, 39607i64, 39636i64, 39666i64, 39695i64, 39725i64, 39755i64, 39784i64, 39814i64, 39844i64, 39873i64, 39903i64, 39932i64, 39962i64, 39991i64, 40020i64, 40050i64, 40079i64, 40109i64, 40138i64, 40168i64, 40198i64, 40228i64, 40257i64, 40287i64, 40316i64, 40346i64, 40375i64, 40404i64, 40434i64, 40463i64, 40492i64, 40522i64, 40552i64, 40582i64, 40611i64, 40641i64, 40671i64, 40700i64, 40730i64, 40759i64, 40788i64, 40818i64, 40847i64, 40876i64, 40906i64, 40936i64, 40965i64, 40995i64, 41025i64, 41055i64, 41084i64];
    table.append(&mut part);
    let mut part: Vec<i64> = vec![41113i64, 41143i64, 41172i64, 41202i64, 41231i64, 41260i64, 41290i64, 41320i64, 41349i64, 41379i64, 41409i64, 41438i64, 41468i64, 41497i64, 41527i64, 41556i64, 41586i64, 41615i64, 41645i64, 41674i64, 41704i64, 41733i64, 41763i64, 41792i64, 41822i64, 41852i64, 41881i64, 41911i64, 41940i64, 41970i64, 41999i64, 42029i64, 42058i64, 42088i64, 42117i64, 42146i64, 42176i64, 42206i64, 42235i64, 42265i64, 42295i64, 42324i64, 42354i64, 42383i64, 42413i64, 42442i64, 42472i64, 42501i64, 42530i64, 42560i64, 42589i64, 42619i64, 42649i64, 42678i64, 42708i64, 42738i64, 42767i64, 42797i64, 42826i64, 42856i64, 42885i64, 42914i64, 42944i64, 42973i64, 43003i64, 43032i64, 43062i64, 43092i64, 43122i64, 43151i64, 43181i64, 43210i64, 43240i64, 43269i64, 43298i64, 43328i64, 43357i64, 43386i64, 43416i64, 43446i64, 43476i64, 43505i64, 43535i64, 43565i64, 43594i64, 43624i64, 43653i64, 43682i64, 43711i64, 43741i64, 43770i64, 43800i64, 43830i64, 43859i64, 43889i64, 43919i64, 43949i64, 43978i64, 44008i64, 44037i64];
    table.append(&mut part);
    let mut part: Vec<i64> = vec![44066i64, 44096i64, 44125i64, 44154i64, 44184i64, 44214i64, 44243i64, 44273i64, 44303i64, 44332i64, 44362i64, 44391i64, 44421i64, 44450i64, 44480i64, 44509i64, 44538i64, 44568i64, 44597i64, 44627i64, 44657i64, 44686i64, 44716i64, 44746i64, 44775i64, 44805i64, 44834i64, 44864i64, 44893i64, 44923i64, 44952i64, 44981i64, 45011i64, 45041i64, 45070i64, 45100i64, 45129i64, 45159i64, 45189i64, 45218i64, 45248i64, 45277i64, 45307i64, 45336i64, 45365i64, 45395i64, 45424i64, 45454i64, 45483i64, 45513i64, 45543i64, 45572i64, 45602i64, 45632i64, 45661i64, 45691i64, 45720i64, 45750i64, 45779i64, 45808i64, 45838i64, 45867i64, 45897i64, 45926i64, 45956i64, 45986i64, 46016i64, 46045i64, 46075i64, 46104i64, 46134i64, 46163i64, 46192i64, 46222i64, 46251i64, 46280i64, 46310i64, 46340i64, 46370i64, 46399i64, 46429i64, 46459i64, 46488i64, 46518i64, 46547i64, 46576i64, 46605i64, 46635i64, 46664i64, 46694i64, 46724i64, 46753i64, 46783i64, 46813i64, 46843i64, 46872i64, 46902i64, 46931i64, 46960i64, 46989i64];
    table.append(&mut part);
    let mut part: Vec<i64> = vec![47019i64, 47048i64, 47078i64, 47107i64, 47137i64, 47167i64, 47197i64, 47226i64, 47256i64, 47286i64, 47315i64, 47344i64, 47374i64, 47403i64, 47432i64, 47462i64, 47491i64, 47521i64, 47551i64, 47581i64, 47610i64, 47640i64, 47669i64, 47699i64, 47728i64, 47758i64, 47787i64, 47816i64, 47846i64, 47875i64, 47905i64, 47935i64, 47964i64, 47994i64, 48024i64, 48053i64, 48083i64, 48112i64, 48142i64, 48171i64, 48200i64, 48230i64];
    table.append(&mut part);
    table
}

pub fn moon_sector_table() -> (table: Vec<u8>)
    ensures
        table@ == moon_sectors(),
{
    let mut table: Vec<u8> = Vec::new();
    let mut part: Vec<u8> = vec![11u8, 0u8, 1u8, 2u8, 3u8, 4u8, 5u8, 6u8, 7u8, 8u8, 9u8, 10u8, 11u8, 0u8, 1u8, 2u8, 3u8, 4u8, 5u8, 6u8, 7u8, 7u8, 8u8, 9u8, 10u8, 11u8, 0u8, 1u8, 2u8, 3u8, 4u8, 5u8, 6u8, 7u8, 8u8, 9u8, 10u8, 11u8, 0u8, 1u8, 2u8, 3u8, 4u8, 5u8, 6u8, 7u8, 8u8, 9u8, 10u8, 11u8, 0u8, 1u8, 2u8, 3u8, 4u8, 5u8, 6u8, 6u8, 7u8, 8u8, 9u8, 10u8, 11u8, 0u8, 1u8, 2u8, 3u8, 4u8, 5u8, 6u8, 7u8, 8u8, 9u8, 10u8, 11u8, 0u8, 1u8, 2u8, 3u8, 4u8, 5u8, 6u8, 7u8, 8u8, 9u8, 10u8, 11u8, 0u8, 1u8, 2u8, 3u8, 4u8, 4u8, 5u8, 6u8, 7u8, 8u8, 9u8, 10u8, 11u8];
    table.append(&mut part);
    let mut part: Vec<u8> = vec![0u8, 1u8, 2u8, 3u8, 4u8, 5u8, 6u8, 7u8, 8u8, 9u8, 10u8, 11u8, 0u8, 1u8, 2u8, 3u8, 4u8, 5u8, 6u8, 7u8, 8u8, 8u8, 9u8, 10u8, 11u8, 0u8, 1u8, 2u8, 3u8, 4u8, 5u8, 6u8, 7u8, 8u8, 9u8, 10u8, 11u8, 0u8, 1u8, 2u8, 3u8, 4u8, 5u8, 6u8, 7u8, 8u8, 9u8, 10u8, 11u8, 0u8, 1u8, 2u8, 3u8, 4u8, 5u8, 6u8, 7u8, 7u8, 8u8, 9u8, 10u8, 11u8, 0u8, 1u8, 2u8, 3u8, 4u8, 5u8, 6u8, 7u8, 8u8, 9u8, 10u8, 11u8, 0u8, 1u8, 2u8, 3u8, 4u8, 5u8, 6u8, 7u8, 8u8, 9u8, 10u8, 11u8, 0u8, 1u8, 2u8, 3u8, 4u8, 5u8, 5u8, 6u8, 7u8, 8u8, 9u8, 10u8, 11u8, 0u8];
    table.append(&mut part);
    let mut part: Vec<u8> = vec![1u8, 2u8, 3u8, 4u8, 5u8, 6u8, 7u8, 8u8, 9u8, 10u8, 11u8, 0u8, 1u8, 2u8, 3u8, 4u8, 5u8, 6u8, 7u8, 8u8, 9u8, 10u8, 11u8, 0u8, 1u8, 2u8, 3u8, 3u8, 4u8, 5u8, 6u8, 7u8, 8u8, 9u8, 10u8, 11u8, 0u8, 1u8, 2u8, 3u8, 4u8, 5u8, 6u8, 7u8, 8u8, 9u8, 10u8, 11u8, 0u8, 1u8, 2u8, 3u8, 4u8, 5u8, 6u8, 7u8, 8u8, 8u8, 9u8, 10u8, 11u8, 0u8, 1u8, 2u8, 3u8, 4u8, 5u8, 6u8, 7u8, 8u8, 9u8, 10u8, 11u8, 0u8, 1u8, 2u8, 3u8, 4u8, 5u8, 6u8, 7u8, 8u8, 9u8, 10u8, 11u8, 0u8, 1u8, 2u8, 3u8, 4u8, 5u8, 6u8, 6u8, 7u8, 8u8, 9u8, 10u8, 11u8, 0u8, 1u8];
    table.append(&mut part);
    let mut part: Vec<u8> = vec![2u8, 3u8, 4u8, 5u8, 6u8, 7u8, 8u8, 9u8, 10u8, 11u8, 0u8, 1u8, 2u8, 3u8, 4u8, 5u8, 6u8, 7u8, 8u8, 9u8, 10u8, 11u8, 0u8, 1u8, 2u8, 3u8, 4u8, 4u8, 5u8, 6u8, 7u8, 8u8, 9u8, 10u8, 11u8, 0u8, 1u8, 2u8, 3u8, 4u8, 5u8, 6u8, 7u8, 8u8, 9u8, 10u8, 11u8, 0u8, 1u8, 2u8, 3u8, 4u8, 5u8, 6u8, 7u8, 8u8, 9u8, 9u8, 10u8, 11u8, 0u8, 1u8, 2u8, 3u8, 4u8, 5u8, 6u8, 7u8, 8u8, 9u8, 10u8, 11u8, 0u8, 1u8, 2u8, 3u8, 4u8, 5u8, 6u8, 7u8, 8u8, 9u8, 10u8, 11u8, 0u8, 1u8, 2u8, 3u8, 4u8, 5u8, 6u8, 7u8, 7u8, 8u8, 9u8, 10u8, 11u8, 0u8, 1u8, 2u8];
    table.append(&mut part);
    let mut part: Vec<u8> = vec![3u8, 4u8, 5u8, 6u8, 7u8, 8u8, 9u8, 10u8, 11u8, 0u8, 1u8, 2u8, 3u8, 4u8, 5u8, 6u8, 7u8, 8u8, 9u8, 10u8, 11u8, 0u8, 1u8, 2u8, 3u8, 4u8, 5u8, 5u8, 6u8, 7u8, 8u8, 9u8, 10u8, 11u8, 0u8, 1u8, 2u8, 3u8, 4u8, 5u8, 6u8, 7u8, 8u8, 9u8, 10u8, 11u8, 0u8, 1u8, 2u8, 3u8, 4u8, 5u8, 6u8, 7u8, 8u8, 9u8, 10u8, 11u8, 0u8, 1u8, 2u8, 3u8, 4u8, 4u8, 5u8, 6u8, 7u8, 8u8, 9u8, 10u8, 11u8, 0u8, 1u8, 2u8, 3u8, 4u8, 5u8, 6u8, 7u8, 8u8, 9u8, 10u8, 11u8, 0u8, 1u8, 2u8, 3u8, 4u8, 5u8, 6u8, 7u8, 8u8, 8u8, 9u8, 10u8, 11u8, 0u8, 1u8, 2u8, 3u8];
    table.append(&mut part);
    let mut part: Vec<u8> = vec![4u8, 5u8, 6u8, 7u8, 8u8, 9u8, 10u8, 11u8, 0u8, 1u8, 2u8, 3u8, 4u8, 5u8, 6u8, 7u8, 8u8, 9u8, 10u8, 11u8, 0u8, 1u8, 2u8, 3u8, 4u8, 5u8, 6u8, 6u8, 7u8, 8u8, 9u8, 10u8, 11u8, 0u8, 1u8, 2u8, 3u8, 4u8, 5u8, 6u8, 7u8, 8u8, 9u8, 10u8, 11u8, 0u8, 1u8, 2u8, 3u8, 4u8, 5u8, 6u8, 7u8, 8u8, 9u8, 10u8, 11u8, 0u8, 1u8, 2u8, 3u8, 4u8, 5u8, 5u8, 6u8, 7u8, 8u8, 9u8, 10u8, 11u8, 0u8, 1u8, 2u8, 3u8, 4u8, 5u8, 6u8, 7u8, 8u8, 9u8, 10u8, 11u8, 0u8, 1u8, 2u8, 3u8, 4u8, 5u8, 6u8, 7u8, 8u8, 9u8, 9u8, 10u8, 11u8, 0u8, 1u8, 2u8, 3u8, 4u8];
    table.append(&mut part);
    let mut part: Vec<u8> = vec![5u8, 6u8, 7u8, 8u8, 9u8, 10u8, 11u8, 0u8, 1u8, 2u8, 3u8, 4u8, 5u8, 6u8, 7u8, 8u8, 9u8, 10u8, 11u8, 0u8, 1u8, 2u8, 3u8, 4u8, 5u8, 6u8, 7u8, 7u8, 8u8, 9u8, 10u8, 11u8, 0u8, 1u8, 2u8, 3u8, 4u8, 5u8, 6u8, 7u8, 8u8, 9u8, 10u8, 11u8, 0u8, 1u8, 2u8, 3u8, 4u8, 5u8, 6u8, 7u8, 8u8, 9u8, 10u8, 11u8, 0u8, 1u8, 2u8, 3u8, 4u8, 5u8, 5u8, 6u8, 7u8, 8u8, 9u8, 10u8, 11u8, 0u8, 1u8, 2u8, 3u8, 4u8, 5u8, 6u8, 7u8, 8u8, 9u8, 10u8, 11u8, 0u8, 1u8, 2u8, 3u8, 4u8, 5u8, 6u8, 7u8, 8u8, 9u8, 10u8, 11u8, 11u8, 1u8, 2u8, 2u8, 3u8, 4u8, 5u8];
    table.append(&mut part);
    let mut part: Vec<u8> = vec![6u8, 7u8, 8u8, 9u8, 10u8, 11u8, 0u8, 1u8, 2u8, 3u8, 4u8, 5u8, 6u8, 7u8, 8u8, 9u8, 10u8, 11u8, 0u8, 1u8, 2u8, 3u8, 4u8, 5u8, 6u8, 7u8, 7u8, 8u8, 9u8, 10u8, 11u8, 0u8, 1u8, 2u8, 3u8, 4u8, 5u8, 6u8, 7u8, 8u8, 9u8, 10u8, 11u8, 0u8, 1u8, 2u8, 3u8, 4u8, 5u8, 6u8, 7u8, 8u8, 9u8, 10u8, 11u8, 0u8, 1u8, 2u8, 3u8, 4u8, 5u8, 6u8, 6u8, 7u8, 8u8, 9u8, 10u8, 11u8, 0u8, 1u8, 2u8, 3u8, 4u8, 5u8, 6u8, 7u8, 8u8, 9u8, 10u8, 11u8, 0u8, 1u8, 2u8, 3u8, 4u8, 5u8, 6u8, 7u8, 8u8, 9u8, 10u8, 11u8, 0u8, 1u8, 2u8, 3u8, 4u8, 4u8, 5u8, 6u8];
    table.append(&mut part);
    let mut part: Vec<u8> = vec![7u8, 8u8, 9u8, 10u8, 11u8, 0u8, 1u8, 2u8, 3u8, 4u8, 5u8, 6u8, 7u8, 8u8, 9u8, 10u8, 11u8, 0u8, 1u8, 2u8, 3u8, 4u8, 5u8, 6u8, 7u8, 8u8, 9u8, 9u8, 10u8, 11u8, 0u8, 1u8, 2u8, 3u8, 4u8, 5u8, 6u8, 7u8, 8u8, 9u8, 10u8, 11u8, 0u8, 1u8, 2u8, 3u8, 4u8, 5u8, 6u8, 7u8, 8u8, 9u8, 10u8, 11u8, 0u8, 1u8, 2u8, 3u8, 4u8, 5u8, 6u8, 6u8, 7u8, 8u8, 9u8, 10u8, 11u8, 0u8, 1u8, 2u8, 3u8, 4u8, 5u8, 6u8, 7u8, 8u8, 9u8, 10u8, 11u8, 0u8, 1u8, 2u8, 3u8, 4u8, 5u8, 6u8, 7u8, 8u8, 9u8, 10u8, 11u8, 0u8, 1u8, 2u8, 3u8, 4u8, 5u8, 5u8, 6u8, 7u8];
    table.append(&mut part);
    let mut part: Vec<u8> = vec![8u8, 9u8, 10u8, 11u8, 0u8, 1u8, 2u8, 3u8, 4u8, 5u8, 6u8, 7u8, 8u8, 9u8, 10u8, 11u8, 0u8, 1u8, 2u8, 3u8, 4u8, 5u8, 6u8, 7u8, 8u8, 9u8, 10u8, 11u8, 0u8, 1u8, 2u8, 3u8, 3u8, 4u8, 5u8, 6u8, 7u8, 8u8, 9u8, 10u8, 11u8, 0u8, 1u8, 2u8, 3u8, 4u8, 5u8, 6u8, 7u8, 8u8, 9u8, 10u8, 11u8, 0u8, 1u8, 2u8, 3u8, 4u8, 5u8, 6u8, 7u8, 8u8, 8u8, 9u8, 10u8, 11u8, 0u8, 1u8, 2u8, 3u8, 4u8, 5u8, 6u8, 7u8, 8u8, 9u8, 10u8, 11u8, 0u8, 1u8, 2u8, 3u8, 4u8, 5u8, 6u8, 7u8, 8u8, 9u8, 10u8, 11u8, 0u8, 1u8, 2u8, 3u8, 4u8, 5u8, 6u8, 6u8, 7u8, 8u8];
    table.append(&mut part);
    let mut part: Vec<u8> = vec![9u8, 10u8, 11u8, 0u8, 1u8, 2u8, 3u8, 4u8, 5u8, 6u8, 7u8, 8u8, 9u8, 10u8, 11u8, 0u8, 1u8, 2u8, 3u8, 4u8, 5u8, 6u8, 7u8, 8u8, 9u8, 10u8, 11u8, 0u8, 1u8, 2u8, 3u8, 4u8, 5u8, 5u8, 6u8, 7u8, 8u8, 9u8, 10u8, 11u8, 0u8, 1u8, 2u8, 3u8, 4u8, 5u8, 6u8, 7u8, 8u8, 9u8, 10u8, 11u8, 0u8, 1u8, 2u8, 3u8, 4u8, 5u8, 6u8, 7u8, 8u8, 9u8, 10u8, 10u8, 11u8, 0u8, 1u8, 2u8, 3u8, 4u8, 5u8, 6u8, 7u8, 8u8, 9u8, 10u8, 11u8, 0u8, 1u8, 2u8, 3u8, 4u8, 5u8, 6u8, 7u8, 8u8, 9u8, 10u8, 11u8, 0u8, 1u8, 2u8, 3u8, 4u8, 5u8, 6u8, 7u8, 7u8, 8u8, 9u8];
    table.append(&mut part);
    let mut part: Vec<u8> = vec![10u8, 11u8, 0u8, 1u8, 2u8, 3u8, 4u8, 5u8, 6u8, 7u8, 8u8, 9u8, 10u8, 11u8, 0u8, 1u8, 2u8, 3u8, 4u8, 5u8, 6u8, 7u8, 8u8, 9u8, 10u8, 11u8, 0u8, 1u8, 2u8, 3u8, 4u8, 5u8, 5u8, 6u8, 7u8, 8u8, 9u8, 10u8, 11u8, 0u8, 1u8, 2u8, 3u8, 4u8, 5u8, 6u8, 7u8, 8u8, 9u8, 10u8, 11u8, 0u8, 1u8, 2u8, 3u8, 4u8, 5u8, 6u8, 7u8, 8u8, 9u8, 10u8, 11u8, 0u8, 1u8, 2u8, 3u8, 3u8, 4u8, 5u8, 6u8, 7u8, 8u8, 9u8, 10u8, 11u8, 0u8, 1u8, 2u8, 3u8, 4u8, 5u8, 6u8, 7u8, 8u8, 9u8, 10u8, 11u8, 0u8, 1u8, 2u8, 3u8, 4u8, 5u8, 6u8, 7u8, 7u8, 8u8, 9u8, 10u8];
    table.append(&mut part);
    let mut part: Vec<u8> = vec![11u8, 0u8, 1u8, 2u8, 3u8, 4u8, 5u8, 6u8, 7u8, 8u8, 9u8, 10u8, 11u8, 0u8, 1u8, 2u8, 3u8, 4u8, 5u8, 6u8, 7u8, 8u8, 9u8, 10u8, 11u8, 0u8, 1u8, 2u8, 3u8, 4u8, 5u8, 6u8, 6u8, 7u8, 8u8, 9u8, 10u8, 11u8, 0u8, 1u8, 2u8, 3u8, 4u8, 5u8, 6u8, 7u8, 8u8, 9u8, 10u8, 11u8, 0u8, 1u8, 2u8, 3u8, 4u8, 5u8, 6u8, 7u8, 8u8, 9u8, 10u8, 11u8, 0u8, 1u8, 2u8, 3u8, 4u8, 4u8, 5u8, 6u8, 7u8, 8u8, 9u8, 10u8, 11u8, 0u8, 1u8, 2u8, 3u8, 4u8, 5u8, 6u8, 7u8, 8u8, 9u8, 10u8, 11u8, 0u8, 1u8, 2u8, 3u8, 4u8, 5u8, 6u8, 7u8, 8u8, 8u8, 9u8, 10u8, 0u8];
    table.append(&mut part);
    let mut part: Vec<u8> = vec![0u8, 2u8, 2u8, 3u8, 4u8, 5u8, 6u8, 7u8, 8u8, 9u8, 10u8, 11u8, 0u8, 1u8, 2u8, 3u8, 4u8, 5u8, 6u8, 7u8, 8u8, 9u8, 10u8, 11u8, 0u8, 1u8, 2u8, 3u8, 4u8, 5u8, 6u8, 7u8, 7u8, 8u8, 9u8, 10u8, 11u8, 0u8, 1u8, 2u8, 3u8, 4u8, 5u8, 6u8, 7u8, 8u8, 9u8, 10u8, 11u8, 0u8, 1u8, 2u8, 3u8, 4u8, 5u8, 6u8, 7u8, 8u8, 9u8, 10u8, 11u8, 0u8, 1u8, 2u8, 3u8, 4u8, 5u8, 6u8, 6u8, 7u8, 8u8, 9u8, 10u8, 11u8, 0u8, 1u8, 2u8, 3u8, 4u8, 5u8, 6u8, 7u8, 8u8, 9u8, 10u8, 11u8, 0u8, 1u8, 2u8, 3u8, 4u8, 5u8, 6u8, 7u8, 8u8, 9u8, 10u8, 11u8, 0u8, 1u8];
    table.append(&mut part);
    let mut part: Vec<u8> = vec![2u8, 3u8, 3u8, 4u8, 5u8, 6u8, 7u8, 8u8, 9u8, 10u8, 11u8, 0u8, 1u8, 2u8, 3u8, 4u8, 5u8, 6u8, 7u8, 8u8, 9u8, 10u8, 11u8, 0u8, 1u8, 2u8, 3u8, 4u8, 5u8, 6u8, 7u8, 8u8, 8u8, 9u8, 10u8, 11u8, 0u8, 1u8, 2u8, 3u8, 4u8, 5u8, 6u8, 7u8, 8u8, 9u8, 10u8, 11u8, 0u8, 1u8, 2u8, 3u8, 4u8, 5u8, 6u8, 7u8, 8u8, 9u8, 10u8, 11u8, 0u8, 1u8, 2u8, 3u8, 4u8, 5u8, 6u8, 6u8, 7u8, 8u8, 9u8, 10u8, 11u8, 0u8, 1u8, 2u8, 3u8, 4u8, 5u8, 6u8, 7u8, 8u8, 9u8, 10u8, 11u8, 0u8, 1u8, 2u8, 3u8, 4u8, 5u8, 6u8, 7u8, 8u8, 9u8, 10u8, 11u8, 0u8, 1u8, 2u8];
    table.append(&mut part);
    let mut part: Vec<u8> = vec![3u8, 4u8, 4u8, 5u8, 6u8, 7u8, 8u8, 9u8, 10u8, 11u8, 0u8, 1u8, 2u8, 3u8, 4u8, 5u8, 6u8, 7u8, 8u8, 9u8, 10u8, 11u8, 0u8, 1u8, 2u8, 3u8, 4u8, 5u8, 6u8, 7u8, 8u8, 9u8, 9u8, 10u8, 11u8, 1u8, 2u8, 2u8, 3u8, 4u8, 5u8, 6u8, 7u8, 8u8, 9u8, 10u8, 11u8, 0u8, 1u8, 2u8, 3u8, 4u8, 5u8, 6u8, 7u8, 8u8, 9u8, 10u8, 11u8, 0u8, 1u8, 2u8, 3u8, 4u8, 5u8, 6u8, 7u8, 7u8, 8u8, 9u8, 10u8, 11u8, 0u8, 1u8, 2u8, 3u8, 4u8, 5u8, 6u8, 7u8, 8u8, 9u8, 10u8, 11u8, 0u8, 1u8, 2u8, 3u8, 4u8, 5u8, 6u8, 7u8, 8u8, 9u8, 10u8, 11u8, 0u8, 1u8, 2u8, 3u8];
    table.append(&mut part);
    let mut part: Vec<u8> = vec![4u8, 5u8, 5u8, 6u8, 7u8, 8u8, 9u8, 10u8, 11u8, 0u8, 1u8, 2u8, 3u8, 4u8, 5u8, 6u8, 7u8, 8u8, 9u8, 10u8, 11u8, 0u8, 1u8, 2u8, 3u8, 4u8, 5u8, 6u8, 7u8, 8u8, 9u8, 10u8, 11u8, 0u8, 1u8, 2u8, 3u8, 4u8, 4u8, 5u8, 6u8, 7u8, 8u8, 9u8, 10u8, 11u8, 0u8, 1u8, 2u8, 3u8, 4u8, 5u8, 6u8, 7u8, 8u8, 9u8, 10u8, 11u8, 0u8, 1u8, 2u8, 3u8, 4u8, 5u8, 6u8, 7u8, 8u8, 8u8, 9u8, 10u8, 11u8, 0u8, 1u8, 2u8, 3u8, 4u8, 5u8, 6u8, 7u8, 8u8, 9u8, 10u8, 11u8, 0u8, 1u8, 2u8, 3u8, 4u8, 5u8, 6u8, 7u8, 8u8, 9u8, 10u8, 11u8, 0u8, 1u8, 2u8, 3u8, 4u8];
    table.append(&mut part);
    let mut part: Vec<u8> = vec![5u8, 6u8, 6u8, 7u8, 8u8, 9u8, 10u8, 11u8, 0u8, 1u8, 2u8, 3u8, 4u8, 5u8, 6u8, 7u8, 8u8, 9u8, 10u8, 11u8, 0u8, 1u8, 2u8, 3u8, 4u8, 5u8, 6u8, 7u8, 8u8, 9u8, 10u8, 11u8, 0u8, 1u8, 2u8, 3u8, 4u8, 5u8, 5u8, 6u8, 7u8, 8u8, 9u8, 10u8, 11u8, 0u8, 1u8, 2u8, 3u8, 4u8, 5u8, 6u8, 7u8, 8u8, 9u8, 10u8, 11u8, 0u8, 1u8, 2u8, 3u8, 4u8, 5u8, 6u8, 7u8, 8u8, 9u8, 9u8, 10u8, 11u8, 0u8, 1u8, 2u8, 3u8, 4u8, 5u8, 6u8, 7u8, 8u8, 9u8, 10u8, 11u8, 0u8, 1u8, 2u8, 3u8, 4u8, 5u8, 6u8, 7u8, 8u8, 9u8, 10u8, 11u8, 0u8, 1u8, 2u8, 3u8, 4u8, 5u8];
    table.append(&mut part);
    let mut part: Vec<u8> = vec![6u8, 7u8, 7u8, 8u8, 9u8, 10u8, 11u8, 0u8, 1u8, 2u8, 3u8, 4u8, 5u8, 6u8, 7u8, 8u8, 9u8, 10u8, 11u8, 0u8, 1u8, 2u8, 3u8, 4u8, 5u8, 6u8, 7u8, 8u8, 9u8, 10u8, 11u8, 0u8, 1u8, 2u8, 3u8, 4u8, 5u8, 5u8, 6u8, 7u8, 8u8, 9u8, 10u8, 11u8, 0u8, 1u8, 2u8, 3u8, 4u8, 5u8, 6u8, 7u8, 8u8, 9u8, 10u8, 11u8, 0u8, 1u8, 2u8, 3u8, 4u8, 5u8, 6u8, 7u8, 8u8, 9u8, 10u8, 11u8, 0u8, 1u8, 2u8, 3u8, 4u8, 4u8, 5u8, 6u8, 7u8, 8u8, 9u8, 10u8, 11u8, 0u8, 1u8, 2u8, 3u8, 4u8, 5u8, 6u8, 7u8, 8u8, 9u8, 10u8, 11u8, 0u8, 1u8, 2u8, 3u8, 4u8, 5u8, 6u8];
    table.append(&mut part);
    let mut part: Vec<u8> = vec![7u8, 8u8, 8u8, 9u8, 10u8, 11u8, 0u8, 1u8, 2u8, 3u8, 4u8, 5u8, 6u8, 7u8, 8u8, 9u8, 10u8, 11u8, 0u8, 1u8, 2u8, 3u8, 4u8, 5u8, 6u8, 7u8, 8u8, 9u8, 10u8, 11u8, 0u8, 1u8, 2u8, 3u8, 4u8, 5u8, 6u8, 6u8, 7u8, 8u8, 9u8, 10u8, 11u8, 0u8, 1u8, 2u8, 3u8, 4u8, 5u8, 6u8, 7u8, 8u8, 9u8, 10u8, 11u8, 0u8, 1u8, 2u8, 3u8, 4u8, 5u8, 6u8, 7u8, 8u8, 9u8, 10u8, 11u8, 0u8, 1u8, 2u8, 3u8, 4u8, 5u8, 5u8, 6u8, 7u8, 8u8, 9u8, 10u8, 11u8, 0u8, 1u8, 2u8, 3u8, 4u8, 5u8, 6u8, 7u8, 8u8, 9u8, 10u8, 11u8, 0u8, 1u8, 2u8, 3u8, 4u8, 5u8, 6u8, 7u8];
    table.append(&mut part);
    let mut part: Vec<u8> = vec![8u8, 9u8, 9u8, 10u8, 11u8, 0u8, 1u8, 2u8, 3u8, 4u8, 5u8, 6u8, 7u8, 8u8, 9u8, 10u8, 11u8, 0u8, 1u8, 2u8, 3u8, 4u8, 5u8, 6u8, 7u8, 8u8, 9u8, 10u8, 11u8, 0u8, 1u8, 2u8, 3u8, 4u8, 5u8, 6u8, 7u8, 7u8, 8u8, 9u8, 10u8, 11u8, 0u8, 1u8, 2u8, 3u8, 4u8, 5u8, 6u8, 7u8, 8u8, 9u8, 10u8, 11u8, 0u8, 1u8, 2u8, 3u8, 4u8, 5u8, 6u8, 7u8, 8u8, 9u8, 10u8, 11u8, 0u8, 1u8, 2u8, 3u8, 4u8, 5u8, 5u8, 6u8, 7u8, 8u8, 9u8, 10u8, 11u8, 0u8, 1u8, 2u8, 3u8, 4u8, 5u8, 6u8, 7u8, 8u8, 9u8, 10u8, 11u8, 0u8, 1u8, 2u8, 3u8, 4u8, 5u8, 6u8, 7u8, 8u8];
    table.append(&mut part);
    let mut part: Vec<u8> = vec![9u8, 10u8, 11u8, 0u8, 1u8, 2u8, 3u8, 3u8, 4u8, 5u8, 6u8, 7u8, 8u8, 9u8, 10u8, 11u8, 0u8, 1u8, 2u8, 3u8, 4u8, 5u8, 6u8, 7u8, 8u8, 9u8, 10u8, 11u8, 0u8, 1u8, 2u8, 3u8, 4u8, 5u8, 6u8, 7u8, 8u8, 8u8, 9u8, 10u8, 11u8, 0u8];
    table.append(&mut part);
    table
}

pub fn solstice_table() -> (table: Vec<i64>)
    ensures
        table@ == solstice_days(),
{
    let mut table: Vec<i64> = Vec::new();
    let mut part: Vec<i64> = vec![-14985i64, -14620i64, -14255i64, -13889i64, -13524i64, -13159i64, -12794i64, -12428i64, -12063i64, -11698i64, -11333i64, -10967i64, -10602i64, -10237i64, -9872i64, -9506i64, -9141i64, -8776i64, -8411i64, -8045i64, -7680i64, -7315i64, -6950i64, -6585i64, -6219i64, -5854i64, -5489i64, -5124i64, -4758i64, -4393i64, -4028i64, -3663i64, -3297i64, -2932i64, -2567i64, -2202i64, -1836i64, -1471i64, -1106i64, -741i64, -375i64, -10i64, 355i64, 720i64, 1086i64, 1451i64, 1816i64, 2181i64, 2547i64, 2912i64, 3277i64, 3642i64, 4008i64, 4373i64, 4738i64, 5103i64, 5469i64, 5834i64, 6199i64, 6564i64, 6929i64, 7295i64, 7660i64, 8025i64, 8390i64, 8756i64, 9121i64, 9486i64, 9851i64, 10217i64, 10582i64, 10947i64, 11312i64, 11678i64, 12043i64, 12408i64, 12773i64, 13139i64, 13504i64, 13869i64, 14234i64, 14600i64, 14965i64, 15330i64, 15695i64, 16061i64, 16426i64, 16791i64, 17156i64, 17522i64, 17887i64, 18252i64, 18617i64, 18982i64, 19348i64, 19713i64, 20078i64, 20443i64, 20809i64, 21174i64];
    table.append(&mut part);
    let mut part: Vec<i64> = vec![21539i64, 21904i64, 22270i64, 22635i64, 23000i64, 23365i64, 23731i64, 24096i64, 24461i64, 24826i64, 25192i64, 25557i64, 25922i64, 26287i64, 26653i64, 27018i64, 27383i64, 27748i64, 28114i64, 28479i64, 28844i64, 29209i64, 29575i64, 29940i64, 30305i64, 30670i64, 31036i64, 31401i64, 31766i64, 32131i64, 32496i64, 32862i64, 33227i64, 33592i64, 33957i64, 34323i64, 34688i64, 35053i64, 35418i64, 35784i64, 36149i64, 36514i64, 36879i64, 37245i64, 37610i64, 37975i64, 38340i64, 38706i64, 39071i64, 39436i64, 39801i64, 40167i64, 40532i64, 40897i64, 41262i64, 41628i64, 41993i64, 42358i64, 42723i64, 43089i64, 43454i64, 43819i64, 44184i64, 44549i64, 44915i64, 45280i64, 45645i64, 46010i64, 46376i64, 46741i64, 47106i64, 47471i64, 47837i64, 48202i64];
    table.append(&mut part);
    table
}

/// How many new moons are tabulated.
pub const MOON_COUNT: usize = 2142;

/// How many December solstices are tabulated.
pub const SOLSTICE_COUNT: usize = 174;

/// The three tables have the lengths the constants give.
#[verifier::rlimit(100)]
pub proof fn lemma_table_lengths()
    ensures
        moon_days().len() == MOON_COUNT,
        moon_sectors().len() == MOON_COUNT,
        solstice_days().len() == SOLSTICE_COUNT,
{
    assert(moon_days_0().len() == 100);
    assert(moon_sectors_0().len() == 100);
    assert(moon_days_1().len() == 100);
    assert(moon_sectors_1().len() == 100);
    assert(moon_days_2().len() == 100);
    assert(moon_sectors_2().len() == 100);
    assert(moon_days_3().len() == 100);
    assert(moon_sectors_3().len() == 100);
    assert(moon_days_4().len() == 100);
    assert(moon_sectors_4().len() == 100);
    assert(moon_days_5().len() == 100);
    assert(moon_sectors_5().len() == 100);
    assert(moon_days_6().len() == 100);
    assert(moon_sectors_6().len() == 100);
    assert(moon_days_7().len() == 100);
    assert(moon_sectors_7().len() == 100);
    assert(moon_days_8().len() == 100);
    assert(moon_sectors_8().len() == 100);
    assert(moon_days_9().len() == 100);
    assert(moon_sectors_9().len() == 100);
    assert(moon_days_10().len() == 100);
    assert(moon_sectors_10().len() == 100);
    assert(moon_days_11().len() == 100);
    assert(moon_sectors_11().len() == 100);
    assert(moon_days_12().len() == 100);
    assert(moon_sectors_12().len() == 100);
    assert(moon_days_13().len() == 100);
    assert(moon_sectors_13().len() == 100);
    assert(moon_days_14().len() == 100);
    assert(moon_sectors_14().len() == 100);
    assert(moon_days_15().len() == 100);
    assert(moon_sectors_15().len() == 100);
    assert(moon_days_16().len() == 100);
    assert(moon_sectors_16().len() == 100);
    assert(moon_days_17().len() == 100);
    assert(moon_sectors_17().len() == 100);
    assert(moon_days_18().len() == 100);
    assert(moon_sectors_18().len() == 100);
    assert(moon_days_19().len() == 100);
    assert(moon_sectors_19().len() == 100);
    assert(moon_days_20().len() == 100);
    assert(moon_sectors_20().len() == 100);
    assert(moon_days_21().len() == 42);
    assert(moon_sectors_21().len() == 42);
    assert(solstice_days_0().len() == 100);
    assert(solstice_days_1().len() == 74);
}


} // verus!
